//! Edits of the configuration file's text that keep its layout and comments:
//! setting a top-level value, and setting, adding and removing presets. The
//! text is read and written as a TOML document by the `toml_edit` crate.

use vstd::prelude::*;
use crate::config::Preset;
use vstd::map::*;

verus! {

#[verifier::external_type_specification]
#[verifier::external_body]
pub struct ExDocumentMut(toml_edit::DocumentMut);

#[verifier::external_type_specification]
#[verifier::external_body]
pub struct ExTomlError(toml_edit::TomlError);

/// What an item of a document is, as the edits see it.
pub enum TomlNode {
    /// A standard table.
    Table,
    /// A boolean value.
    Bool(bool),
    /// An integer value.
    Int(i64),
    /// A string value.
    Text(Seq<char>),
    /// Anything else: another kind of value, an inline table or an array of
    /// tables.
    Other,
}

/// A document's model: the key path of every item that can be reached from
/// the root through standard tables, other than the empty items that an
/// index leaves behind, mapped to what the item is. Items inside inline
/// tables and arrays are not in it.
pub type DocModel = Map<Seq<Seq<char>>, TomlNode>;

/// The model of a document.
pub uninterp spec fn document_model(doc: toml_edit::DocumentMut) -> Map<Seq<Seq<char>>, TomlNode>;

/// What parsing `text` as a TOML document gives: nothing when the text is no
/// TOML document, else the model of the document.
pub uninterp spec fn parsed_model(text: Seq<char>) -> Option<Map<Seq<Seq<char>>, TomlNode>>;

/// `q` begins with `p`.
pub open spec fn path_under(q: Seq<Seq<char>>, p: Seq<Seq<char>>) -> bool {
    p.len() <= q.len() && q.subrange(0, p.len() as int) == p
}

/// The model without the item at `p` and the items under it.
pub open spec fn without_subtree(m: DocModel, p: Seq<Seq<char>>) -> DocModel {
    m.restrict(m.dom().filter(|q: Seq<Seq<char>>| !path_under(q, p)))
}

/// The model with the item at `p` replaced by `node`, and nothing under it.
pub open spec fn set_at(m: DocModel, p: Seq<Seq<char>>, node: TomlNode) -> DocModel {
    without_subtree(m, p).insert(p, node)
}

/// The item at `p` is a standard table.
pub open spec fn table_at(m: DocModel, p: Seq<Seq<char>>) -> bool {
    m.contains_key(p) && m[p] is Table
}

/// The items of a model that are no tables.
pub open spec fn leaves(m: DocModel) -> DocModel {
    m.restrict(m.dom().filter(|q: Seq<Seq<char>>| !(m[q] is Table)))
}

/// Reading back a document written out gives `read`: every item of the
/// document that is no table, each the same, and no table that the document
/// lacks. (A table that holds nothing and was never written out, which
/// toml_edit marks implicit, is left out of the text.)
pub open spec fn reads_back_as(read: DocModel, doc: DocModel) -> bool {
    &&& leaves(read) == leaves(doc)
    &&& forall|q: Seq<Seq<char>>| #[trigger] table_at(read, q) ==> table_at(doc, q)
}

/// Parses `text` with `DocumentMut`'s `FromStr`. Claims that it fails
/// exactly on the texts that `parsed_model` gives nothing for, and that the
/// document it gives has the model that `parsed_model` names.
#[verifier::external_body]
fn parse_document(text: &str) -> (r: Result<toml_edit::DocumentMut, toml_edit::TomlError>)
    ensures
        match parsed_model(text@) {
            None => r is Err,
            Some(m) => r matches Ok(d) && document_model(d) == m,
        },
{
    text.parse::<toml_edit::DocumentMut>()
}

/// The message of a parse error, from `TomlError`'s `Display`. Nothing is
/// claimed of it.
#[verifier::external_body]
fn error_text(e: &toml_edit::TomlError) -> String {
    e.to_string()
}

/// The document as text, from `DocumentMut`'s `Display`, which writes every
/// item out with its key path. Claims that the text parses, and reads back
/// as the document: the same items that are no tables, and no other tables
/// (an implicit table that holds nothing is not written out).
#[verifier::external_body]
fn document_text(doc: &toml_edit::DocumentMut) -> (r: String)
    ensures
        parsed_model(r@) is Some,
        reads_back_as(parsed_model(r@)->Some_0, document_model(*doc)),
{
    doc.to_string()
}

/// Whether the document's top-level item `key` is a standard table
/// (`Table::contains_table` on the document's root table).
#[verifier::external_body]
fn has_table(doc: &toml_edit::DocumentMut, key: &str) -> (b: bool)
    ensures
        b == table_at(document_model(*doc), seq![key@]),
{
    doc.contains_table(key)
}

/// Whether the top-level table `table` has an entry `key` (`Item::get`
/// through the document's `Index`, which skips empty items).
#[verifier::external_body]
fn table_has(doc: &toml_edit::DocumentMut, table: &str, key: &str) -> (b: bool)
    requires
        table_at(document_model(*doc), seq![table@]),
    ensures
        b == document_model(*doc).contains_key(seq![table@, key@]),
{
    doc[table].get(key).is_some()
}

/// Whether the entry `key` of the top-level table `table` is a standard
/// table (`Item::is_table` through the document's `Index`).
#[verifier::external_body]
fn entry_is_table(doc: &toml_edit::DocumentMut, table: &str, key: &str) -> (b: bool)
    requires
        table_at(document_model(*doc), seq![table@]),
        document_model(*doc).contains_key(seq![table@, key@]),
    ensures
        b == table_at(document_model(*doc), seq![table@, key@]),
{
    doc[table][key].is_table()
}

/// Sets the top-level item `key` to a boolean value (`IndexMut` and
/// `toml_edit::value`), in place of what was there.
#[verifier::external_body]
fn set_bool(doc: &mut toml_edit::DocumentMut, key: &str, v: bool)
    ensures
        document_model(*final(doc)) == set_at(
            document_model(*old(doc)),
            seq![key@],
            TomlNode::Bool(v),
        ),
{
    doc[key] = toml_edit::value(v);
}

/// Sets the top-level item `key` to an integer value, as `set_bool` does.
#[verifier::external_body]
fn set_int(doc: &mut toml_edit::DocumentMut, key: &str, v: i64)
    ensures
        document_model(*final(doc)) == set_at(document_model(*old(doc)), seq![key@], TomlNode::Int(v)),
{
    doc[key] = toml_edit::value(v);
}

/// Sets the top-level item `key` to a string value, as `set_bool` does.
#[verifier::external_body]
fn set_str(doc: &mut toml_edit::DocumentMut, key: &str, v: &str)
    ensures
        document_model(*final(doc)) == set_at(
            document_model(*old(doc)),
            seq![key@],
            TomlNode::Text(v@),
        ),
{
    doc[key] = toml_edit::value(v);
}

/// Sets the integer `field` of the table `key` inside the top-level table
/// `table` (`IndexMut` three levels down and `toml_edit::value`), in place
/// of what was there.
#[verifier::external_body]
fn set_nested_int(doc: &mut toml_edit::DocumentMut, table: &str, key: &str, field: &str, v: i64)
    requires
        table_at(document_model(*old(doc)), seq![table@]),
        table_at(document_model(*old(doc)), seq![table@, key@]),
    ensures
        document_model(*final(doc)) == set_at(
            document_model(*old(doc)),
            seq![table@, key@, field@],
            TomlNode::Int(v),
        ),
{
    doc[table][key][field] = toml_edit::value(v);
}

/// Puts an empty standard table under `key` in the top-level table `table`
/// (`IndexMut` and `toml_edit::table`), in place of what was there.
#[verifier::external_body]
fn put_table(doc: &mut toml_edit::DocumentMut, table: &str, key: &str)
    requires
        table_at(document_model(*old(doc)), seq![table@]),
    ensures
        document_model(*final(doc)) == set_at(
            document_model(*old(doc)),
            seq![table@, key@],
            TomlNode::Table,
        ),
{
    doc[table][key] = toml_edit::table();
}

/// Removes the entry `key`, and what it holds, from the top-level table
/// `table` (`Item::as_table_mut` and `Table::remove`).
#[verifier::external_body]
fn remove_from_table(doc: &mut toml_edit::DocumentMut, table: &str, key: &str)
    requires
        table_at(document_model(*old(doc)), seq![table@]),
    ensures
        document_model(*final(doc)) == without_subtree(
            document_model(*old(doc)),
            seq![table@, key@],
        ),
{
    doc[table].as_table_mut().unwrap().remove(key);
}

/// A value of a top-level setting.
pub enum ConfigValue {
    Bool(bool),
    Int(i64),
    Text(String),
}

/// Why an edit of the configuration text failed.
pub enum ConfigFileError {
    /// The text is no TOML document; the parser's message.
    Invalid(String),
    /// The document has no `presets` table.
    NoPresets,
    /// The `presets` table has no entry of that name.
    PresetMissing,
    /// The entry of that name is no table.
    PresetNotTable,
    /// The `presets` table has an entry of that name already.
    PresetExists,
}

/// The key of the table of presets.
pub open spec fn presets_key() -> Seq<char> {
    "presets"@
}

/// The message of an error: the parser's own, or a fixed text.
pub open spec fn error_message(e: ConfigFileError) -> Seq<char> {
    match e {
        ConfigFileError::Invalid(m) => m@,
        ConfigFileError::NoPresets => "presets not found"@,
        ConfigFileError::PresetMissing => "preset not found"@,
        ConfigFileError::PresetNotTable => "preset is not a table"@,
        ConfigFileError::PresetExists => "preset already exists"@,
    }
}

impl ConfigFileError {
    /// The message of the error.
    pub fn message(&self) -> (s: String)
        ensures
            s@ == error_message(*self),
    {
        match self {
            ConfigFileError::Invalid(m) => m.clone(),
            ConfigFileError::NoPresets => String::from_str("presets not found"),
            ConfigFileError::PresetMissing => String::from_str("preset not found"),
            ConfigFileError::PresetNotTable => String::from_str("preset is not a table"),
            ConfigFileError::PresetExists => String::from_str("preset already exists"),
        }
    }
}

/// The parse error's message, as a library error.
fn invalid(e: &toml_edit::TomlError) -> (r: ConfigFileError)
    ensures
        r is Invalid,
{
    ConfigFileError::Invalid(error_text(e))
}

/// What a setting's value is as an item of the document.
pub open spec fn config_node(v: ConfigValue) -> TomlNode {
    match v {
        ConfigValue::Bool(b) => TomlNode::Bool(b),
        ConfigValue::Int(i) => TomlNode::Int(i),
        ConfigValue::Text(s) => TomlNode::Text(s@),
    }
}

/// The edited text parses, and reads back as `expected`.
pub open spec fn text_reads_back(t: Seq<char>, expected: DocModel) -> bool {
    parsed_model(t) matches Some(read) && reads_back_as(read, expected)
}

/// Setting the item at `p` leaves every item that lies outside `p` as it
/// was.
proof fn lemma_set_keeps(m: DocModel, p: Seq<Seq<char>>, node: TomlNode, q: Seq<Seq<char>>)
    requires
        !path_under(q, p),
    ensures
        set_at(m, p, node).contains_key(q) == m.contains_key(q),
        m.contains_key(q) ==> set_at(m, p, node)[q] == m[q],
{
    if q == p {
        assert(q.subrange(0, p.len() as int) =~= p);
    }
}

/// The configuration text with the top-level setting `key` set to `value`;
/// everything else in it reads back as it was. Fails only on a text that is
/// no TOML document.
pub fn with_value(text: &str, key: &str, value: &ConfigValue) -> (r: Result<String, ConfigFileError>)
    ensures
        match parsed_model(text@) {
            None => r matches Err(e) && e is Invalid,
            Some(m) => r matches Ok(t) && text_reads_back(t@, set_at(m, seq![key@], config_node(*value))),
        },
{
    let mut doc = match parse_document(text) {
        Ok(d) => d,
        Err(e) => return Err(invalid(&e)),
    };
    match value {
        ConfigValue::Bool(b) => set_bool(&mut doc, key, *b),
        ConfigValue::Int(i) => set_int(&mut doc, key, *i),
        ConfigValue::Text(s) => set_str(&mut doc, key, s.as_str()),
    }
    Ok(document_text(&doc))
}

/// The path of the preset `name`.
pub open spec fn preset_path(name: Seq<char>) -> Seq<Seq<char>> {
    seq![presets_key(), name]
}

/// The path of the field `field` of the preset `name`.
pub open spec fn preset_field_path(name: Seq<char>, field: Seq<char>) -> Seq<Seq<char>> {
    seq![presets_key(), name, field]
}

/// The error, if any, of an edit of the preset `name` in a parsed text: no
/// `presets` table, no entry of that name, or an entry that is no table.
pub open spec fn preset_edit_error(m: DocModel, name: Seq<char>) -> Option<ConfigFileError> {
    if !table_at(m, seq![presets_key()]) {
        Some(ConfigFileError::NoPresets)
    } else if !m.contains_key(preset_path(name)) {
        Some(ConfigFileError::PresetMissing)
    } else if !table_at(m, preset_path(name)) {
        Some(ConfigFileError::PresetNotTable)
    } else {
        None
    }
}

/// The configuration text with the integer `field` of the preset `name` set
/// to `value`; everything else in it reads back as it was.
pub fn with_preset_value(text: &str, preset_name: &str, field: &str, value: i64) -> (r: Result<
    String,
    ConfigFileError,
>)
    ensures
        match parsed_model(text@) {
            None => r matches Err(e) && e is Invalid,
            Some(m) => match preset_edit_error(m, preset_name@) {
                Some(e) => r matches Err(f) && f == e,
                None => r matches Ok(t) && text_reads_back(
                    t@,
                    set_at(m, preset_field_path(preset_name@, field@), TomlNode::Int(value)),
                ),
            },
        },
{
    let mut doc = match parse_document(text) {
        Ok(d) => d,
        Err(e) => return Err(invalid(&e)),
    };
    if !has_table(&doc, "presets") {
        return Err(ConfigFileError::NoPresets);
    }
    if !table_has(&doc, "presets", preset_name) {
        return Err(ConfigFileError::PresetMissing);
    }
    if !entry_is_table(&doc, "presets", preset_name) {
        return Err(ConfigFileError::PresetNotTable);
    }
    set_nested_int(&mut doc, "presets", preset_name, field, value);
    Ok(document_text(&doc))
}

/// The model with a new preset table `name` that holds the lengths and the
/// cycle of `p`, each written as an integer.
pub open spec fn with_preset_model(m: DocModel, name: Seq<char>, p: Preset) -> DocModel {
    let m1 = set_at(m, preset_path(name), TomlNode::Table);
    let m2 = set_at(
        m1,
        preset_field_path(name, "work_minutes"@),
        TomlNode::Int(p.work_minutes as i64),
    );
    let m3 = set_at(
        m2,
        preset_field_path(name, "short_break_minutes"@),
        TomlNode::Int(p.short_break_minutes as i64),
    );
    let m4 = set_at(
        m3,
        preset_field_path(name, "long_break_minutes"@),
        TomlNode::Int(p.long_break_minutes as i64),
    );
    set_at(
        m4,
        preset_field_path(name, "sessions_before_long_break"@),
        TomlNode::Int(p.sessions_before_long_break as i64),
    )
}

/// The configuration text with a new preset `name` holding the lengths and
/// the cycle of `preset`; everything else in it reads back as it was. Fails
/// when the text has no `presets` table or one with an entry of that name.
pub fn with_new_preset(text: &str, name: &str, preset: &Preset) -> (r: Result<
    String,
    ConfigFileError,
>)
    ensures
        match parsed_model(text@) {
            None => r matches Err(e) && e is Invalid,
            Some(m) => if !table_at(m, seq![presets_key()]) {
                r matches Err(e) && e is NoPresets
            } else if m.contains_key(preset_path(name@)) {
                r matches Err(e) && e is PresetExists
            } else {
                r matches Ok(t) && text_reads_back(t@, with_preset_model(m, name@, *preset))
            },
        },
{
    let mut doc = match parse_document(text) {
        Ok(d) => d,
        Err(e) => return Err(invalid(&e)),
    };
    if !has_table(&doc, "presets") {
        return Err(ConfigFileError::NoPresets);
    }
    if table_has(&doc, "presets", name) {
        return Err(ConfigFileError::PresetExists);
    }
    let ghost top = seq![presets_key()];
    let ghost pp = preset_path(name@);
    put_table(&mut doc, "presets", name);
    proof {
        lemma_set_keeps(document_model(doc), pp, TomlNode::Table, top);
        assert(!path_under(top, pp));
    }
    set_nested_int(&mut doc, "presets", name, "work_minutes", preset.work_minutes as i64);
    set_nested_int(
        &mut doc,
        "presets",
        name,
        "short_break_minutes",
        preset.short_break_minutes as i64,
    );
    set_nested_int(&mut doc, "presets", name, "long_break_minutes", preset.long_break_minutes as i64);
    set_nested_int(
        &mut doc,
        "presets",
        name,
        "sessions_before_long_break",
        preset.sessions_before_long_break as i64,
    );
    Ok(document_text(&doc))
}

/// The configuration text without the preset `name` and what it holds;
/// everything else in it reads back as it was. Fails only when the text has
/// no `presets` table.
pub fn without_preset(text: &str, name: &str) -> (r: Result<String, ConfigFileError>)
    ensures
        match parsed_model(text@) {
            None => r matches Err(e) && e is Invalid,
            Some(m) => if !table_at(m, seq![presets_key()]) {
                r matches Err(e) && e is NoPresets
            } else {
                r matches Ok(t) && text_reads_back(t@, without_subtree(m, preset_path(name@)))
            },
        },
{
    let mut doc = match parse_document(text) {
        Ok(d) => d,
        Err(e) => return Err(invalid(&e)),
    };
    if !has_table(&doc, "presets") {
        return Err(ConfigFileError::NoPresets);
    }
    remove_from_table(&mut doc, "presets", name);
    Ok(document_text(&doc))
}

/// An item that is no table is among the leaves, as it is.
proof fn lemma_leaf(m: DocModel, q: Seq<Seq<char>>)
    requires
        m.contains_key(q),
        !(m[q] is Table),
    ensures
        leaves(m).contains_key(q),
        leaves(m)[q] == m[q],
{
    assert(m.dom().filter(|k: Seq<Seq<char>>| !(m[k] is Table)).contains(q));
}

/// A leaf is an item of the model, as it is.
proof fn lemma_leaf_of(m: DocModel, q: Seq<Seq<char>>)
    requires
        leaves(m).contains_key(q),
    ensures
        m.contains_key(q),
        leaves(m)[q] == m[q],
{
}

/// What an edit writes reads back. After setting the item at `p` to a value
/// that is no table, reading the text back gives that value at `p`, and
/// every item outside `p` that is no table as it was; after removing the
/// item at `p`, nothing at or under `p` reads back.
pub proof fn lemma_edits_read_back(
    m: DocModel,
    read: DocModel,
    p: Seq<Seq<char>>,
    node: TomlNode,
    q: Seq<Seq<char>>,
)
    ensures
        reads_back_as(read, set_at(m, p, node)) && !(node is Table) ==> read.contains_key(p)
            && read[p] == node,
        reads_back_as(read, set_at(m, p, node)) && m.contains_key(q) && !(m[q] is Table)
            && !path_under(q, p) ==> read.contains_key(q) && read[q] == m[q],
        reads_back_as(read, without_subtree(m, p)) && path_under(q, p) ==> !read.contains_key(q),
{
    let s = set_at(m, p, node);
    if reads_back_as(read, s) && !(node is Table) {
        lemma_leaf(s, p);
        lemma_leaf_of(read, p);
    }
    if reads_back_as(read, s) && m.contains_key(q) && !(m[q] is Table) && !path_under(q, p) {
        lemma_set_keeps(m, p, node, q);
        lemma_leaf(s, q);
        lemma_leaf_of(read, q);
    }
    let w = without_subtree(m, p);
    if reads_back_as(read, w) && path_under(q, p) && read.contains_key(q) {
        if read[q] is Table {
            assert(table_at(read, q));
            assert(table_at(w, q));
        } else {
            assert(leaves(read).contains_key(q));
            assert(leaves(w).contains_key(q));
        }
    }
}

} // verus!

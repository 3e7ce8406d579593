//! Records as YAML text. The YAML syntax itself is left to `serde_yaml`;
//! what a record must hold is decided here.

use crate::error::FanlingError;
use crate::fields::FieldMap;
use crate::response::pairs_view;
use vstd::prelude::*;

verus! {

/// One entry of a YAML mapping: its key and its value, each as text where
/// it is a string, and absent where it is anything else.
#[derive(Clone, Debug, PartialEq, Eq)]
pub struct Entry {
    /// The key, if it is a string.
    pub key: Option<String>,
    /// The value, if it is a string.
    pub value: Option<String>,
}

/// What an [`Entry`] holds.
pub type EntryView = (Option<Seq<char>>, Option<Seq<char>>);

/// The view of a text that may be absent.
pub open spec fn text_view(text: Option<String>) -> Option<Seq<char>> {
    match text {
        Some(s) => Some(s@),
        None => None,
    }
}

impl View for Entry {
    type V = EntryView;

    open spec fn view(&self) -> EntryView {
        (text_view(self.key), text_view(self.value))
    }
}

/// A YAML document, as far as a record is concerned: a mapping with its
/// entries in the order of the text, or anything else.
#[derive(Clone, Debug, PartialEq, Eq)]
pub enum Document {
    /// A mapping.
    Mapping(Vec<Entry>),
    /// A scalar or a sequence.
    Other,
}

/// What a text holds when it is read as YAML.
pub enum YamlView {
    /// The text is not one YAML document: the words of the reader's
    /// refusal.
    Invalid(Seq<char>),
    /// A scalar or a sequence.
    Other,
    /// A mapping, with its entries in the order of the text.
    Mapping(Seq<EntryView>),
}

/// The views of the entries in `s`, in order.
pub open spec fn entries_view(s: Seq<Entry>) -> Seq<EntryView> {
    Seq::new(s.len(), |i: int| s[i]@)
}

impl View for Document {
    type V = YamlView;

    open spec fn view(&self) -> YamlView {
        match *self {
            Document::Mapping(entries) => YamlView::Mapping(entries_view(entries@)),
            Document::Other => YamlView::Other,
        }
    }
}

/// The most marks of nesting that a text may hold to be read. The reader
/// loads a text by a recursion that takes between two and three kilobytes of
/// stack for each level of nesting, so this bound asks for a stack with a
/// mebibyte and a half to spare.
pub const MAX_NESTING: usize = 512;

/// The most alias marks that a text with an anchor mark may hold to be
/// read. The reader reads an anchored node again for every alias of it, so
/// that aliases of aliases multiply its work; eight of them multiply it by
/// eighteen at most.
pub const MAX_ALIASES: usize = 8;

/// Whether a byte opens a flow sequence or a flow mapping: `[` or `{`.
pub open spec fn opens_flow(byte: u8) -> bool {
    byte == 91 || byte == 123
}

/// Whether a text holds a byte that opens a flow sequence or mapping.
pub open spec fn holds_flow(bytes: Seq<u8>) -> bool {
    exists|i: int| 0 <= i < bytes.len() && opens_flow(#[trigger] bytes[i])
}

/// Whether the text ends at `i` or holds there a space, a tab, a line
/// break or a zero byte.
pub open spec fn is_blank_or_end(bytes: Seq<u8>, i: int) -> bool {
    i >= bytes.len() || bytes[i] == 32 || bytes[i] == 9 || bytes[i] == 10 || bytes[i] == 13
        || bytes[i] == 0
}

/// Whether the text holds at `i` one of the flow indicators `,`, `[`, `]`,
/// `{` and `}`.
pub open spec fn is_flow_indicator(bytes: Seq<u8>, i: int) -> bool {
    0 <= i < bytes.len() && (bytes[i] == 44 || bytes[i] == 91 || bytes[i] == 93 || bytes[i] == 123
        || bytes[i] == 125)
}

/// Whether the text holds at `i` a single or a double quote.
pub open spec fn is_quote(bytes: Seq<u8>, i: int) -> bool {
    0 <= i < bytes.len() && (bytes[i] == 34 || bytes[i] == 39)
}

/// Whether the byte at `i` may open a level of nesting: `[` and `{` always
/// may; `-` and `?` may before a blank or the end of the text; `:` may
/// there too, and in a text that holds flow brackets (`flow`) also before a
/// flow indicator and behind a quote.
pub open spec fn is_nesting_mark(bytes: Seq<u8>, i: int, flow: bool) -> bool {
    let byte = bytes[i];
    ||| opens_flow(byte)
    ||| (byte == 45 || byte == 63) && is_blank_or_end(bytes, i + 1)
    ||| byte == 58 && is_blank_or_end(bytes, i + 1)
    ||| byte == 58 && flow && (is_flow_indicator(bytes, i + 1) || is_quote(bytes, i - 1))
}

/// The number of nesting marks among the first `n` bytes of a text.
pub open spec fn marks_before(bytes: Seq<u8>, n: int, flow: bool) -> nat
    decreases n,
{
    if n <= 0 {
        0
    } else if is_nesting_mark(bytes, n - 1, flow) {
        marks_before(bytes, n - 1, flow) + 1
    } else {
        marks_before(bytes, n - 1, flow)
    }
}

/// The number of nesting marks in a text. A YAML text cannot nest deeper
/// than this number: every sequence and every mapping that it opens costs
/// one mark of its own.
pub open spec fn nesting_marks(bytes: Seq<u8>) -> nat {
    marks_before(bytes, bytes.len() as int, holds_flow(bytes))
}

/// Whether a byte can stand in the name of an anchor: a letter or a digit
/// of ASCII, `_` or `-`.
pub open spec fn is_name_byte(byte: u8) -> bool {
    48 <= byte <= 57 || 65 <= byte <= 90 || 97 <= byte <= 122 || byte == 95 || byte == 45
}

/// The number of places among the first `n` bytes of a text where `lead`
/// stands before a byte of a name.
pub open spec fn name_marks_before(bytes: Seq<u8>, n: int, lead: u8) -> nat
    decreases n,
{
    if n <= 0 {
        0
    } else if bytes[n - 1] == lead && n < bytes.len() && is_name_byte(bytes[n]) {
        name_marks_before(bytes, n - 1, lead) + 1
    } else {
        name_marks_before(bytes, n - 1, lead)
    }
}

/// The number of anchor marks in a text: `&` before a byte of a name. A
/// YAML text defines no more anchors than this.
pub open spec fn anchor_marks(bytes: Seq<u8>) -> nat {
    name_marks_before(bytes, bytes.len() as int, 38)
}

/// The number of alias marks in a text: `*` before a byte of a name. A YAML
/// text holds no more aliases than this.
pub open spec fn alias_marks(bytes: Seq<u8>) -> nat {
    name_marks_before(bytes, bytes.len() as int, 42)
}

/// Whether a text may be handed to the reader: it holds no more than
/// [`MAX_NESTING`] nesting marks, and either no anchor mark, so that no
/// alias in it can name a node, or no more than [`MAX_ALIASES`] alias
/// marks.
pub open spec fn readable(bytes: Seq<u8>) -> bool {
    &&& nesting_marks(bytes) <= MAX_NESTING
    &&& anchor_marks(bytes) == 0 || alias_marks(bytes) <= MAX_ALIASES
}

/// The words with which a text is refused unread.
pub open spec fn unread_words(bytes: Seq<u8>) -> Seq<char> {
    if nesting_marks(bytes) > MAX_NESTING {
        "record holds too many nesting marks"@
    } else {
        "record holds too many aliases"@
    }
}

/// What `serde_yaml` reads out of a text.
pub uninterp spec fn yaml_parse(bytes: Seq<u8>) -> YamlView;

/// The text that `serde_yaml` writes for a mapping from strings to strings
/// with the given entries, in their order.
pub uninterp spec fn yaml_text(entries: Seq<(Seq<char>, Seq<char>)>) -> Seq<u8>;

/// What a text holds for this library: what `serde_yaml` reads out of it,
/// unless the text is not [`readable`]; such a text is refused unread.
pub open spec fn yaml_read(bytes: Seq<u8>) -> YamlView {
    if readable(bytes) {
        yaml_parse(bytes)
    } else {
        YamlView::Invalid(unread_words(bytes))
    }
}

/// `serde_yaml::from_slice`, reading a `serde_yaml::Value`. The contract
/// claims that what is read depends on the text alone. A mapping comes back
/// with its entries in the order in which `serde_yaml` holds them, each key
/// and value as its string where the `Value` is a `String`; any other
/// document comes back as [`Document::Other`]; a text that `serde_yaml`
/// refuses gives the words of its error, as `Display` writes them.
///
/// Two things keep the reader from returning, and the text must be
/// [`readable`] to rule them out. It loads a text by a recursion that is as
/// deep as the text nests, before any limit of `serde_yaml` applies; its
/// scanner makes the token that opens a sequence or a mapping only at `[`
/// and `{`, at `-` and `?` before a blank, and at `:` before a blank or, in
/// flow brackets, before a flow indicator or right behind a quoted scalar.
/// And it reads an anchored node again for every alias of it; its scanner
/// makes an anchor only at `&` and an alias only at `*`, each before a byte
/// of a name, and an alias of an anchor that the text does not define ends
/// the reading with an error.
#[verifier::external_body]
pub(crate) fn parse_document(bytes: &[u8]) -> (res: Result<Document, String>)
    requires
        readable(bytes@),
    ensures
        match res {
            Ok(document) => document@ == yaml_parse(bytes@),
            Err(words) => yaml_parse(bytes@) == YamlView::Invalid(words@),
        },
{
    let text = |v: serde_yaml::Value| match v {
        serde_yaml::Value::String(s) => Some(s),
        _ => None,
    };
    Ok(match serde_yaml::from_slice::<serde_yaml::Value>(bytes).map_err(|e| e.to_string())? {
        serde_yaml::Value::Mapping(m) => Document::Mapping(
            m.into_iter().map(|(k, v)| Entry { key: text(k), value: text(v) }).collect(),
        ),
        _ => Document::Other,
    })
}

/// `serde_yaml::to_vec`, writing a `serde_yaml::Mapping` whose keys and
/// values are the strings of `entries`, inserted in their order. The
/// contract claims that the text written depends on the entries alone, and
/// that writing succeeds: the writer fails only where a value refuses to be
/// serialised or the sink refuses to be written to, and here every value is
/// a string and the sink is a vector.
#[verifier::external_body]
pub(crate) fn emit_mapping(entries: &Vec<(String, String)>) -> (res: Result<Vec<u8>, String>)
    ensures
        res is Ok,
        res matches Ok(bytes) ==> bytes@ == yaml_text(pairs_view(entries@)),
{
    let mapping: serde_yaml::Mapping = entries.iter().map(
        |(k, v)| (serde_yaml::Value::String(k.clone()), serde_yaml::Value::String(v.clone())),
    ).collect();
    serde_yaml::to_vec(&mapping).map_err(|e| e.to_string())
}

/// The fields that the entries of a mapping give: every entry whose key
/// and value are both strings is a field; the others are passed over. Where
/// a key occurs more than once, the last occurrence counts.
pub open spec fn fold_entries(s: Seq<EntryView>) -> Map<Seq<char>, Seq<char>>
    decreases s.len(),
{
    if s.len() == 0 {
        Map::empty()
    } else {
        match s.last() {
            (Some(key), Some(value)) => fold_entries(s.drop_last()).insert(key, value),
            _ => fold_entries(s.drop_last()),
        }
    }
}

/// Whether an entry of a mapping carries the key `key`, whatever its value.
pub open spec fn names_key(s: Seq<EntryView>, key: Seq<char>) -> bool {
    exists|i: int| 0 <= i < s.len() && (#[trigger] s[i]).0 == Some(key)
}

/// Whether a document is a mapping with an entry under `key`, whatever its
/// value.
pub open spec fn document_names(document: YamlView, key: Seq<char>) -> bool {
    match document {
        YamlView::Mapping(entries) => names_key(entries, key),
        _ => false,
    }
}

/// The fields of a document: those of its entries where it is a mapping,
/// and none where it is not.
pub open spec fn document_fields(document: YamlView) -> Option<Map<Seq<char>, Seq<char>>> {
    match document {
        YamlView::Mapping(entries) => Some(fold_entries(entries)),
        _ => None,
    }
}

/// The mapping that holds the given fields, in their order.
pub open spec fn mapping_of(fields: Seq<(Seq<char>, Seq<char>)>) -> YamlView {
    YamlView::Mapping(Seq::new(fields.len(), |i: int| (Some(fields[i].0), Some(fields[i].1))))
}

/// The fields of a document, where it is a mapping.
pub fn fields_of(document: &Document) -> (res: Option<FieldMap>)
    ensures
        res is Some <==> document_fields(document@) is Some,
        res matches Some(fields) ==> Some(fields@) == document_fields(document@),
{
    match document {
        Document::Mapping(entries) => {
            let mut fields = FieldMap::new();
            let ghost all = entries_view(entries@);
            for i in 0..entries.len()
                invariant
                    all == entries_view(entries@),
                    fields@ == fold_entries(all.take(i as int)),
            {
                proof {
                    assert(all.take(i + 1).drop_last() == all.take(i as int));
                    assert(all.take(i + 1).last() == entries@[i as int]@);
                }
                let entry = &entries[i];
                match (&entry.key, &entry.value) {
                    (Some(key), Some(value)) => {
                        fields.insert(key.as_str(), value.as_str());
                    },
                    _ => {},
                }
            }
            proof {
                assert(all.take(entries@.len() as int) == all);
            }
            Some(fields)
        },
        Document::Other => None,
    }
}

/// Whether `document` is a mapping with an entry under `key`, whatever its
/// value.
pub fn names(document: &Document, key: &str) -> (res: bool)
    ensures
        res == document_names(document@, key@),
{
    match document {
        Document::Mapping(entries) => {
            let name = key.to_owned();
            let ghost all = entries_view(entries@);
            for i in 0..entries.len()
                invariant
                    name@ == key@,
                    all == entries_view(entries@),
                    document@ == YamlView::Mapping(all),
                    forall|j: int| 0 <= j < i ==> (#[trigger] all[j]).0 != Some(key@),
            {
                match &entries[i].key {
                    Some(k) => {
                        if *k == name {
                            assert(all[i as int].0 == Some(key@));
                            return true;
                        }
                    },
                    None => {},
                }
            }
            false
        },
        Document::Other => false,
    }
}

/// The number of nesting marks in `bytes`.
pub fn count_nesting_marks(bytes: &[u8]) -> (res: usize)
    ensures
        res == nesting_marks(bytes@),
{
    let mut flow = false;
    for i in 0..bytes.len()
        invariant
            flow == exists|j: int| 0 <= j < i && opens_flow(#[trigger] bytes@[j]),
    {
        if bytes[i] == 91 || bytes[i] == 123 {
            flow = true;
        }
    }
    let mut count: usize = 0;
    for i in 0..bytes.len()
        invariant
            count == marks_before(bytes@, i as int, flow),
            count <= i,
    {
        let byte = bytes[i];
        let before_blank = i + 1 == bytes.len() || bytes[i + 1] == 32 || bytes[i + 1] == 9
            || bytes[i + 1] == 10 || bytes[i + 1] == 13 || bytes[i + 1] == 0;
        let before_flow = i + 1 < bytes.len() && (bytes[i + 1] == 44 || bytes[i + 1] == 91
            || bytes[i + 1] == 93 || bytes[i + 1] == 123 || bytes[i + 1] == 125);
        let behind_quote = i > 0 && (bytes[i - 1] == 34 || bytes[i - 1] == 39);
        if byte == 91 || byte == 123 || ((byte == 45 || byte == 63) && before_blank) || (byte == 58
            && (before_blank || (flow && (before_flow || behind_quote)))) {
            count = count + 1;
        }
    }
    count
}

/// The number of places in `bytes` where `lead` stands before a byte of a
/// name: with `&` the anchor marks, with `*` the alias marks.
pub fn count_name_marks(bytes: &[u8], lead: u8) -> (res: usize)
    ensures
        res == name_marks_before(bytes@, bytes@.len() as int, lead),
{
    let mut count: usize = 0;
    for i in 0..bytes.len()
        invariant
            count == name_marks_before(bytes@, i as int, lead),
            count <= i,
    {
        if bytes[i] == lead && i + 1 < bytes.len() {
            let next = bytes[i + 1];
            if (48 <= next && next <= 57) || (65 <= next && next <= 90) || (97 <= next && next
                <= 122) || next == 95 || next == 45 {
                count = count + 1;
            }
        }
    }
    count
}

/// What becomes of the attempt to write a record: the text where it was
/// written, and an encoding failure with the writer's words where it was
/// not.
pub fn encoded(outcome: Result<Vec<u8>, String>) -> (res: Result<Vec<u8>, FanlingError>)
    ensures
        match outcome {
            Ok(bytes) => res == Ok::<Vec<u8>, FanlingError>(bytes),
            Err(words) => res == Err::<Vec<u8>, FanlingError>(FanlingError::Encode(words)),
        },
{
    match outcome {
        Ok(bytes) => Ok(bytes),
        Err(words) => Err(FanlingError::Encode(words)),
    }
}

/// Writes the fields `entries` as one YAML mapping. Writing always
/// succeeds, and equal fields give equal text.
pub fn write_record(entries: &Vec<(String, String)>) -> (res: Result<Vec<u8>, FanlingError>)
    ensures
        res matches Ok(bytes) && bytes@ == yaml_text(pairs_view(entries@)),
{
    encoded(emit_mapping(entries))
}

/// What becomes of the attempt to read a text: the document where one was
/// read, and a malformed record with the reader's words where none was.
pub fn decoded(outcome: Result<Document, String>) -> (res: Result<Document, FanlingError>)
    ensures
        match outcome {
            Ok(document) => res == Ok::<Document, FanlingError>(document),
            Err(words) => res == Err::<Document, FanlingError>(FanlingError::Deserialize(words)),
        },
{
    match outcome {
        Ok(document) => Ok(document),
        Err(words) => Err(FanlingError::Deserialize(words)),
    }
}

/// Reads `bytes` as one YAML document. A text that is not YAML is a
/// malformed record, which carries the reader's words; so is a text that is
/// not [`readable`], which is not handed to the reader.
pub fn read_document(bytes: &[u8]) -> (res: Result<Document, FanlingError>)
    ensures
        match yaml_read(bytes@) {
            YamlView::Invalid(words) => res matches Err(FanlingError::Deserialize(m)) && m@
                == words,
            document => res matches Ok(read) && read@ == document,
        },
{
    if count_nesting_marks(bytes) > MAX_NESTING {
        return Err(FanlingError::Deserialize("record holds too many nesting marks".to_owned()));
    }
    if count_name_marks(bytes, 38) > 0 && count_name_marks(bytes, 42) > MAX_ALIASES {
        return Err(FanlingError::Deserialize("record holds too many aliases".to_owned()));
    }
    decoded(parse_document(bytes))
}

} // verus!

//! Simple items: free-text pages, like the pages of a wiki.

use crate::action::Action;
use crate::conflict::{
    merge_field, settled, spec_merge_field, ChangeList, Conflict, ConflictView, Preference,
    Resolution, TieBreak,
};
use crate::error::{Escalation, FanlingError};
use crate::fields::FieldMap;
use crate::item::{Item, ItemBase, ItemBaseView, ItemKind, Payload};
use crate::response::{pairs_view, texts_view, ActionResponse, Response};
use crate::text::{break_lines, broken_lines};
use crate::world::World;
use crate::yaml::{
    document_fields, document_names, fields_of, fold_entries, mapping_of, names, read_document,
    write_record, yaml_read, yaml_text, Document, YamlView,
};
use vstd::prelude::*;

verus! {

/// What a [`Simple`] holds.
pub struct SimpleView {
    /// The name of the page.
    pub name: Seq<char>,
    /// The text of the page, in Markdown.
    pub text: Seq<char>,
}

/// The data of a simple item.
#[derive(Clone, Debug)]
pub struct Simple {
    name: String,
    text: String,
}

impl View for Simple {
    type V = SimpleView;

    closed spec fn view(&self) -> SimpleView {
        SimpleView { name: self.name@, text: self.text@ }
    }
}

impl Simple {
    /// The fragments of the edit form: the identity of the item, whether
    /// the form updates an existing item, the name, and the text with its
    /// line feeds written as entities.
    pub open spec fn spec_edit_tags(
        page: SimpleView,
        base: ItemBaseView,
        is_for_update: bool,
    ) -> Map<Seq<char>, Seq<char>> {
        Map::<Seq<char>, Seq<char>>::empty().insert("ident"@, base.ident).insert(
            "kind"@,
            base.kind.spec_tag(),
        ).insert(
            "for-update"@,
            if is_for_update {
                "true"@
            } else {
                "false"@
            },
        ).insert("name"@, page.name).insert("text"@, broken_lines(page.text))
    }

    /// The fragments of the page as it is shown: the identity of the item,
    /// the name, and the text as it was written.
    pub open spec fn spec_show_tags(page: SimpleView, base: ItemBaseView) -> Map<
        Seq<char>,
        Seq<char>,
    > {
        Map::<Seq<char>, Seq<char>>::empty().insert("ident"@, base.ident).insert(
            "kind"@,
            base.kind.spec_tag(),
        ).insert("name"@, page.name).insert("text"@, page.text)
    }

    /// The page that user input describes: the input must name the page;
    /// a text that the input leaves out is empty.
    pub open spec fn spec_from_input(vals: Map<Seq<char>, Seq<char>>) -> Option<SimpleView> {
        if vals.contains_key("name"@) {
            Some(
                SimpleView {
                    name: vals["name"@],
                    text: if vals.contains_key("text"@) {
                        vals["text"@]
                    } else {
                        Seq::empty()
                    },
                },
            )
        } else {
            None
        }
    }

    /// The checks that an update fails: the input must hold a name, and the
    /// name must not be empty.
    pub open spec fn spec_update_failures(vals: Map<Seq<char>, Seq<char>>) -> Seq<
        (Seq<char>, Seq<char>),
    > {
        if !vals.contains_key("name"@) || vals["name"@].len() == 0 {
            seq![("name-error"@, "Name must be non-blank."@)]
        } else {
            Seq::empty()
        }
    }

    /// The record of a page: the fields of the base and those of the page,
    /// side by side, in this order.
    pub open spec fn spec_record(base: ItemBaseView, page: SimpleView) -> Seq<
        (Seq<char>, Seq<char>),
    > {
        seq![
            ("ident"@, base.ident),
            ("kind"@, base.kind.spec_tag()),
            ("name"@, page.name),
            ("text"@, page.text),
        ]
    }

    /// The page that a record holds: the record must be a mapping with the
    /// fields `name` and `text`. What else it holds is passed over.
    pub open spec fn spec_from_record(document: YamlView) -> Option<SimpleView> {
        match document_fields(document) {
            Some(fields) => if fields.contains_key("name"@) && fields.contains_key("text"@) {
                Some(SimpleView { name: fields["name"@], text: fields["text"@] })
            } else {
                None
            },
            None => None,
        }
    }

    /// Why a document is not the record of a page: it is not YAML, and the
    /// reader's words say why; or it is no mapping; or the mapping lacks a
    /// field; or it holds the field with a value that is no text. The name is
    /// looked at before the text.
    pub open spec fn spec_record_fault(document: YamlView) -> Seq<char> {
        match document {
            YamlView::Invalid(words) => words,
            YamlView::Other => "record is not a mapping"@,
            YamlView::Mapping(entries) => if !fold_entries(entries).contains_key("name"@) {
                if document_names(document, "name"@) {
                    "field `name` is not text"@
                } else {
                    "missing field `name`"@
                }
            } else if document_names(document, "text"@) {
                "field `text` is not text"@
            } else {
                "missing field `text`"@
            },
        }
    }

    /// What taking a page over from user input does: with a name in the
    /// input, the page becomes what the input describes; without one, the call
    /// fails with the words `no name` and the page stays as it was.
    pub open spec fn spec_set_data(
        before: Simple,
        vals: Map<Seq<char>, Seq<char>>,
        after: Simple,
        res: Result<(), FanlingError>,
    ) -> bool {
        match Self::spec_from_input(vals) {
            Some(page) => res is Ok && after@ == page,
            None => {
                &&& res matches Err(FanlingError::Validation(m))
                &&& m@ == "no name"@
                &&& after == before
            },
        }
    }

    /// What taking a page over from a document does: the page becomes the
    /// one that the document holds; where it holds none, the call fails with a
    /// malformed record, which says what is wrong with the document, and the
    /// page stays as it was.
    pub open spec fn spec_set_from(
        before: Simple,
        document: YamlView,
        after: Simple,
        res: Result<(), FanlingError>,
    ) -> bool {
        match Self::spec_from_record(document) {
            Some(page) => res is Ok && after@ == page,
            None => {
                &&& res matches Err(FanlingError::Deserialize(m))
                &&& m@ == Self::spec_record_fault(document)
                &&& after == before
            },
        }
    }

    /// The words with which a simple item refuses an action.
    pub open spec fn spec_no_action() -> Seq<char> {
        "simple do action called, should never happen"@
    }

    /// The page that two diverged pages merge into, field by field, or
    /// nothing where a field must be escalated.
    pub open spec fn spec_merge(
        ours: SimpleView,
        theirs: SimpleView,
        ancestor: Option<SimpleView>,
        pick: Preference,
    ) -> Option<SimpleView> {
        let name = spec_merge_field(
            ours.name,
            theirs.name,
            match ancestor {
                Some(a) => Some(a.name),
                None => None,
            },
            pick,
        );
        let text = spec_merge_field(
            ours.text,
            theirs.text,
            match ancestor {
                Some(a) => Some(a.text),
                None => None,
            },
            pick,
        );
        match (name, text) {
            (Some(name), Some(text)) => Some(SimpleView { name, text }),
            _ => None,
        }
    }

    /// A new page, without name or text.
    pub fn new() -> (res: Self)
        ensures
            res@.name == Seq::<char>::empty(),
            res@.text == Seq::<char>::empty(),
    {
        Simple { name: String::new(), text: String::new() }
    }

    /// The name of the page.
    pub fn name(&self) -> (res: &String)
        ensures
            res@ == self@.name,
    {
        &self.name
    }

    /// The text of the page.
    pub fn text(&self) -> (res: &String)
        ensures
            res@ == self@.text,
    {
        &self.text
    }

    /// The rendering payload of the edit form. Line feeds in the text are
    /// written as entities, so that the text survives as the value of a form
    /// field, and the marker of a name error is cleared.
    pub fn for_edit(&self, base: &ItemBase, is_for_update: bool, _world: &World) -> (res: Response)
        ensures
            res@.tags == Self::spec_edit_tags(self@, base@, is_for_update),
            res@.cleared == seq!["name-error"@],
    {
        let broken_text = break_lines(self.text.as_str());
        let markers = vec!["name-error".to_owned()];
        assert(texts_view(markers@) =~= seq!["name-error"@]);
        let mut resp = Response::new();
        resp.clear_errors(markers);
        resp.add_tag("ident", base.ident().as_str());
        resp.add_tag("kind", base.kind().tag());
        resp.add_tag(
            "for-update",
            if is_for_update {
                "true"
            } else {
                "false"
            },
        );
        resp.add_tag("name", self.name.as_str());
        resp.add_tag("text", broken_text.as_str());
        resp
    }

    /// The rendering payload of the page as it is shown.
    pub fn for_show(&self, base: &ItemBase, _world: &World) -> (res: Response)
        ensures
            res@.tags == Self::spec_show_tags(self@, base@),
            res@.cleared == Seq::<Seq<char>>::empty(),
    {
        let mut resp = Response::new();
        resp.add_tag("ident", base.ident().as_str());
        resp.add_tag("kind", base.kind().tag());
        resp.add_tag("name", self.name.as_str());
        resp.add_tag("text", self.text.as_str());
        resp
    }

    /// The fields of the record of this page.
    pub fn record(&self, base: &ItemBase) -> (res: Vec<(String, String)>)
        ensures
            pairs_view(res@) == Self::spec_record(base@, self@),
    {
        let res = vec![
            ("ident".to_owned(), base.ident().clone()),
            ("kind".to_owned(), base.kind().tag().to_owned()),
            ("name".to_owned(), self.name.clone()),
            ("text".to_owned(), self.text.clone()),
        ];
        assert(pairs_view(res@) =~= Self::spec_record(base@, self@));
        res
    }

    /// The record of this page as YAML text: one flat mapping that holds
    /// the fields of the base and those of the page. Writing always succeeds,
    /// and equal pages of equal items give equal text.
    pub fn to_yaml(&self, base: &ItemBase) -> (res: Result<Vec<u8>, FanlingError>)
        ensures
            res matches Ok(bytes) && bytes@ == yaml_text(Self::spec_record(base@, self@)),
    {
        let entries = self.record(base);
        write_record(&entries)
    }

    /// Every simple item is open.
    pub fn is_open(&self) -> (res: bool)
        ensures
            res,
    {
        true
    }

    /// Every simple item is ready.
    pub fn is_ready(&self) -> (res: bool)
        ensures
            res,
    {
        true
    }

    /// A short label for the page: its name.
    pub fn description(&self) -> (res: String)
        ensures
            res@ == self@.name,
    {
        self.name.clone()
    }

    /// Takes the page over from user input. The input must hold `name`;
    /// without it the call fails and the page stays as it was. A `text` that
    /// the input leaves out becomes the empty text.
    pub fn set_data(&mut self, vals: &FieldMap, _world: &World) -> (res: Result<(), FanlingError>)
        ensures
            Self::spec_set_data(*old(self), vals@, *final(self), res),
    {
        match vals.get("name") {
            Some(s) => {
                self.name = s.clone();
            },
            None => {
                return Err(FanlingError::Validation("no name".to_owned()));
            },
        }
        match vals.get("text") {
            Some(s) => {
                self.text = s.clone();
            },
            None => {
                self.text = String::new();
            },
        }
        Ok(())
    }

    /// Checks an update before it is applied, and reports every check that
    /// fails. An input without a name fails the check of the name as an empty
    /// name does. The page itself plays no part and is not changed: the
    /// outcome depends on the input alone.
    pub fn try_update(&self, _base: &ItemBase, vals: &FieldMap, _world: &World) -> (res:
        ActionResponse)
        ensures
            res@ == Self::spec_update_failures(vals@),
            res@.len() == 0 <==> vals@.contains_key("name"@) && vals@["name"@].len() > 0,
    {
        let mut ar = ActionResponse::new();
        let named = match vals.get("name") {
            Some(name) => !name.as_str().is_empty(),
            None => false,
        };
        ar.check(named, "name-error", "Name must be non-blank.");
        assert(ar@ =~= Self::spec_update_failures(vals@));
        ar
    }

    /// The page that a record holds. The record must be a mapping with the
    /// fields `name` and `text`; one that is not is a malformed record, and
    /// the failure says what is wrong with it.
    pub fn from_document(yaml: &Document) -> (res: Result<Simple, FanlingError>)
        ensures
            match Self::spec_from_record(yaml@) {
                Some(page) => res matches Ok(read) && read@ == page,
                None => res matches Err(FanlingError::Deserialize(m)) && m@
                    == Self::spec_record_fault(yaml@),
            },
    {
        let fields = match fields_of(yaml) {
            Some(fields) => fields,
            None => {
                return Err(FanlingError::Deserialize("record is not a mapping".to_owned()));
            },
        };
        let name = match fields.get("name") {
            Some(s) => s.clone(),
            None => {
                let words = if names(yaml, "name") {
                    "field `name` is not text"
                } else {
                    "missing field `name`"
                };
                return Err(FanlingError::Deserialize(words.to_owned()));
            },
        };
        let text = match fields.get("text") {
            Some(s) => s.clone(),
            None => {
                let words = if names(yaml, "text") {
                    "field `text` is not text"
                } else {
                    "missing field `text`"
                };
                return Err(FanlingError::Deserialize(words.to_owned()));
            },
        };
        Ok(Simple { name, text })
    }

    /// The page that the YAML text of a record holds. A text that is not
    /// YAML, or not the record of a page, is a malformed record.
    pub fn from_yaml(bytes: &[u8]) -> (res: Result<Simple, FanlingError>)
        ensures
            match Self::spec_from_record(yaml_read(bytes@)) {
                Some(page) => res matches Ok(read) && read@ == page,
                None => res matches Err(FanlingError::Deserialize(m)) && m@
                    == Self::spec_record_fault(yaml_read(bytes@)),
            },
    {
        match read_document(bytes) {
            Ok(document) => Self::from_document(&document),
            Err(e) => Err(e),
        }
    }

    /// Takes the page over from a record that was read. The record must be a
    /// mapping with the fields `name` and `text`; otherwise the call fails
    /// and the page stays as it was.
    pub fn set_from_yaml(&mut self, yaml: &Document, _world: &World) -> (res: Result<
        (),
        FanlingError,
    >)
        ensures
            Self::spec_set_from(*old(self), yaml@, *final(self), res),
    {
        match Self::from_document(yaml) {
            Ok(page) => {
                *self = page;
                Ok(())
            },
            Err(e) => Err(e),
        }
    }

    /// Takes the page over from the YAML text of a record. A text that is
    /// not YAML, or not the record of a page, fails and leaves the page as it
    /// was.
    pub fn decode(&mut self, bytes: &[u8], _world: &World) -> (res: Result<(), FanlingError>)
        ensures
            Self::spec_set_from(*old(self), yaml_read(bytes@), *final(self), res),
    {
        match Self::from_yaml(bytes) {
            Ok(page) => {
                *self = page;
                Ok(())
            },
            Err(e) => Err(e),
        }
    }

    /// Merges two pages that diverged, field by field. A value that both
    /// pages agree on stands; where only one page changed what `ancestor`
    /// held, the change stands; where both changed it, or no ancestor is
    /// known, `pick` decides. There is no merged page where `pick` prefers
    /// neither side for such a field.
    pub fn merge(
        ours: &Simple,
        theirs: &Simple,
        ancestor: Option<&Simple>,
        pick: Preference,
    ) -> (res: Option<Simple>)
        ensures
            res is Some <==> Self::spec_merge(
                ours@,
                theirs@,
                match ancestor {
                    Some(a) => Some(a@),
                    None => None,
                },
                pick,
            ) is Some,
            res matches Some(page) ==> Some(page@) == Self::spec_merge(
                ours@,
                theirs@,
                match ancestor {
                    Some(a) => Some(a@),
                    None => None,
                },
                pick,
            ),
    {
        let (start_name, start_text) = match ancestor {
            Some(a) => (Some(&a.name), Some(&a.text)),
            None => (None, None),
        };
        let name = match merge_field(&ours.name, &theirs.name, start_name, pick) {
            Some(name) => name,
            None => {
                return None;
            },
        };
        let text = match merge_field(&ours.text, &theirs.text, start_text, pick) {
            Some(text) => text,
            None => {
                return None;
            },
        };
        Some(Simple { name, text })
    }

    /// A simple item has no actions of its own: a call is a fault of the
    /// caller, reported as such, and leaves the page as it was.
    pub fn do_action(&mut self, _base: &ItemBase, _action: Action, _world: &World) -> (res: Result<
        Response,
        FanlingError,
    >)
        ensures
            res matches Err(FanlingError::Programming(m)) && m@ == Self::spec_no_action(),
            *final(self) == *old(self),
    {
        Err(FanlingError::Programming("simple do action called, should never happen".to_owned()))
    }

    /// A copy of the page that shares nothing with it.
    pub fn fanling_clone(&self) -> (res: Result<Box<Simple>, FanlingError>)
        ensures
            res matches Ok(copy) && copy@ == self@,
    {
        Ok(Box::new(Simple { name: self.name.clone(), text: self.text.clone() }))
    }
}

/// The policy for the simple item kind: how its items are made, and how
/// two diverged records of one are settled.
#[derive(Clone, Copy, Debug, PartialEq, Eq, Structural)]
pub struct SimpleTypePolicy {
    tie_break: TieBreak,
}

impl SimpleTypePolicy {
    /// How the policy settles a field that both sessions changed.
    pub closed spec fn spec_tie_break(&self) -> TieBreak {
        self.tie_break
    }

    /// What the policy makes of a conflict: both records, and the record
    /// that they started from where the conflict names one, must be records of
    /// pages; the pages are then merged field by field. The records are read
    /// in this order: ours, theirs, the one that both started from.
    pub open spec fn spec_resolution(&self, conflict: ConflictView) -> Resolution {
        let pick = self.spec_tie_break().spec_preference(
            conflict.ours.revision,
            conflict.theirs.revision,
        );
        let base = ItemBaseView { ident: conflict.ident, kind: ItemKind::Simple };
        match (
            Simple::spec_from_record(yaml_read(conflict.ours.record)),
            Simple::spec_from_record(yaml_read(conflict.theirs.record)),
        ) {
            (Some(ours), Some(theirs)) => {
                let start = match conflict.ancestor {
                    Some(bytes) => Some(Simple::spec_from_record(yaml_read(bytes))),
                    None => None,
                };
                match start {
                    Some(None) => Resolution::Malformed(
                        Simple::spec_record_fault(yaml_read(conflict.ancestor->0)),
                    ),
                    Some(Some(a)) => match Simple::spec_merge(ours, theirs, Some(a), pick) {
                        Some(page) => Resolution::Merged(Simple::spec_record(base, page)),
                        None => Resolution::Escalated,
                    },
                    None => match Simple::spec_merge(ours, theirs, None, pick) {
                        Some(page) => Resolution::Merged(Simple::spec_record(base, page)),
                        None => Resolution::Escalated,
                    },
                }
            },
            (None, _) => Resolution::Malformed(
                Simple::spec_record_fault(yaml_read(conflict.ours.record)),
            ),
            (Some(_), None) => Resolution::Malformed(
                Simple::spec_record_fault(yaml_read(conflict.theirs.record)),
            ),
        }
    }

    /// The policy that escalates every field that both sessions changed.
    pub fn new() -> (res: Self)
        ensures
            res.spec_tie_break() == TieBreak::Escalate,
    {
        SimpleTypePolicy { tie_break: TieBreak::Escalate }
    }

    /// [`SimpleTypePolicy::new`], on the heap.
    pub fn new_boxed() -> (res: Box<Self>)
        ensures
            res.spec_tie_break() == TieBreak::Escalate,
    {
        Box::new(Self::new())
    }

    /// The policy that settles a field that both sessions changed by
    /// `tie_break`.
    pub fn with_tie_break(tie_break: TieBreak) -> (res: Self)
        ensures
            res.spec_tie_break() == tie_break,
    {
        SimpleTypePolicy { tie_break }
    }

    /// How the policy settles a field that both sessions changed.
    pub fn tie_break(&self) -> (res: TieBreak)
        ensures
            res == self.spec_tie_break(),
    {
        self.tie_break
    }

    /// The kind that the policy is for.
    pub fn kind(&self) -> (res: ItemKind)
        ensures
            res == ItemKind::Simple,
    {
        ItemKind::Simple
    }

    /// A new item of this kind, under the identifier `ident`, with an empty
    /// page.
    pub fn make_raw(&self, ident: &str) -> (res: Item)
        ensures
            res.wf(),
            res.spec_base()@.ident == ident@,
            res.spec_base()@.kind == ItemKind::Simple,
            res.spec_data() matches Payload::Simple(page) && page@.name == Seq::<char>::empty()
                && page@.text == Seq::<char>::empty(),
    {
        Item::new_with_data(ident, Payload::Simple(Simple::new()))
    }

    /// Settles one conflict. The two records are read and merged field by
    /// field; the merged record is added to `changes`. Where a field cannot
    /// be merged, the conflict is escalated: both records are handed back as
    /// they were found, and `changes` stays as it was, as it does on every
    /// other failure. What `changes` held before stays in it, in its place.
    pub fn resolve_conflict(&self, conflict: &Conflict, changes: &mut ChangeList) -> (res: Result<
        (),
        FanlingError,
    >)
        ensures
            settled(
                conflict@,
                self.spec_resolution(conflict@),
                old(changes)@,
                final(changes)@,
                res,
            ),
            old(changes)@.is_prefix_of(final(changes)@),
    {
        let ours = match Simple::from_yaml(conflict.ours.record.as_slice()) {
            Ok(page) => page,
            Err(e) => {
                return Err(e);
            },
        };
        let theirs = match Simple::from_yaml(conflict.theirs.record.as_slice()) {
            Ok(page) => page,
            Err(e) => {
                return Err(e);
            },
        };
        let start = match &conflict.ancestor {
            Some(bytes) => match Simple::from_yaml(bytes.as_slice()) {
                Ok(page) => Some(page),
                Err(e) => {
                    return Err(e);
                },
            },
            None => None,
        };
        let pick = self.tie_break.preference(conflict.ours.revision, conflict.theirs.revision);
        match Simple::merge(&ours, &theirs, start.as_ref(), pick) {
            Some(page) => {
                let base = ItemBase::new(conflict.ident.as_str(), ItemKind::Simple);
                changes.record(conflict.ident.as_str(), page.to_yaml(&base))
            },
            None => Err(
                FanlingError::ConflictUnresolvable(
                    Escalation {
                        ident: conflict.ident.clone(),
                        ours: conflict.ours.record.clone(),
                        theirs: conflict.theirs.record.clone(),
                    },
                ),
            ),
        }
    }
}

/// Checking an update is a function of the input alone: the page that is
/// asked plays no part, so two checks of one input report the same failures;
/// and the check succeeds exactly when the input holds a name that is not
/// empty.
pub proof fn lemma_update_check_is_pure(vals: Map<Seq<char>, Seq<char>>)
    ensures
        Simple::spec_update_failures(vals).len() == 0 <==> vals.contains_key("name"@)
            && vals["name"@].len() > 0,
        Simple::spec_update_failures(vals).len() > 0 ==> Simple::spec_update_failures(vals)
            == seq![("name-error"@, "Name must be non-blank."@)],
{
}

/// The fields that the record of a page holds when it is read back: those
/// that were written, each with its value.
pub proof fn lemma_record_fields(base: ItemBaseView, page: SimpleView)
    ensures
        document_fields(mapping_of(Simple::spec_record(base, page))) == Some(
            Map::<Seq<char>, Seq<char>>::empty().insert("ident"@, base.ident).insert(
                "kind"@,
                base.kind.spec_tag(),
            ).insert("name"@, page.name).insert("text"@, page.text),
        ),
{
    let entries = mapping_of(Simple::spec_record(base, page))->Mapping_0;
    let e3 = entries.drop_last();
    let e2 = e3.drop_last();
    let e1 = e2.drop_last();
    let e0 = e1.drop_last();
    assert(fold_entries(e0) == Map::<Seq<char>, Seq<char>>::empty());
    assert(fold_entries(e1) == fold_entries(e0).insert("ident"@, base.ident));
    assert(fold_entries(e2) == fold_entries(e1).insert("kind"@, base.kind.spec_tag()));
    assert(fold_entries(e3) == fold_entries(e2).insert("name"@, page.name));
    assert(fold_entries(entries) == fold_entries(e3).insert("text"@, page.text));
}

/// Reading back the record of a page gives the page: the same name and the
/// same text, and with them the same description.
pub proof fn lemma_record_round_trip(base: ItemBaseView, page: SimpleView)
    ensures
        Simple::spec_from_record(mapping_of(Simple::spec_record(base, page))) == Some(page),
{
    lemma_record_fields(base, page);
    reveal_strlit("name");
    reveal_strlit("text");
    assert("name"@[0] != "text"@[0]);
}

} // verus!

//! The registry of item kinds: for each kind that is registered, the
//! policy that makes its items and settles its conflicts.

use crate::conflict::{settled, ChangeList, ChangeView, Conflict, ConflictView, Resolution};
use crate::error::FanlingError;
use crate::item::{Item, ItemBaseView, ItemKind, Payload, PayloadView};
use crate::simple::{
    lemma_record_fields, lemma_record_round_trip, Simple, SimpleTypePolicy, SimpleView,
};
use crate::yaml::{
    document_names, fields_of, fold_entries, mapping_of, names, read_document, yaml_read,
    yaml_text, Document, YamlView,
};
use vstd::prelude::*;

verus! {

/// The policy of a kind: one variant for each kind.
#[derive(Clone, Copy, Debug, PartialEq, Eq, Structural)]
pub enum TypePolicy {
    /// The policy of the simple items.
    Simple(SimpleTypePolicy),
}

impl TypePolicy {
    /// The kind that the policy is for.
    pub open spec fn spec_kind(&self) -> ItemKind {
        match *self {
            TypePolicy::Simple(_) => ItemKind::Simple,
        }
    }

    /// What the policy makes of a conflict.
    pub open spec fn spec_resolution(&self, conflict: ConflictView) -> Resolution {
        match *self {
            TypePolicy::Simple(policy) => policy.spec_resolution(conflict),
        }
    }

    /// Why a document does not hold data of the policy's kind.
    pub open spec fn spec_payload_fault(&self, document: YamlView) -> Seq<char> {
        match *self {
            TypePolicy::Simple(_) => Simple::spec_record_fault(document),
        }
    }

    /// The data with which an item of the policy's kind begins: for a
    /// simple item, a page without name or text.
    pub open spec fn spec_empty(&self) -> PayloadView {
        match *self {
            TypePolicy::Simple(_) => PayloadView::Simple(
                SimpleView { name: Seq::empty(), text: Seq::empty() },
            ),
        }
    }

    /// The data of the policy's kind that a record holds.
    pub open spec fn spec_payload(&self, document: YamlView) -> Option<PayloadView> {
        match *self {
            TypePolicy::Simple(_) => match Simple::spec_from_record(document) {
                Some(page) => Some(PayloadView::Simple(page)),
                None => None,
            },
        }
    }

    /// The kind that the policy is for.
    pub fn kind(&self) -> (res: ItemKind)
        ensures
            res == self.spec_kind(),
    {
        match self {
            TypePolicy::Simple(policy) => policy.kind(),
        }
    }

    /// The data of the policy's kind that a record holds. A record that
    /// does not hold such data is malformed, and the failure says why.
    pub fn read_payload(&self, document: &Document) -> (res: Result<Payload, FanlingError>)
        ensures
            match self.spec_payload(document@) {
                Some(data) => res matches Ok(read) && read@ == data && read.spec_kind()
                    == self.spec_kind(),
                None => res matches Err(FanlingError::Deserialize(m)) && m@
                    == self.spec_payload_fault(document@),
            },
    {
        match self {
            TypePolicy::Simple(_) => match Simple::from_document(document) {
                Ok(page) => Ok(Payload::Simple(page)),
                Err(e) => Err(e),
            },
        }
    }

    /// A new item of the policy's kind, under the identifier `ident`, with
    /// the empty data of the kind. This never fails.
    pub fn make_raw(&self, ident: &str) -> (res: Item)
        ensures
            res.wf(),
            res.spec_base()@.ident == ident@,
            res.spec_base()@.kind == self.spec_kind(),
            res.spec_data()@ == self.spec_empty(),
    {
        match self {
            TypePolicy::Simple(policy) => policy.make_raw(ident),
        }
    }

    /// Settles one conflict as the kind does.
    pub fn resolve_conflict(&self, conflict: &Conflict, changes: &mut ChangeList) -> (res: Result<
        (),
        FanlingError,
    >)
        ensures
            settled(
                conflict@,
                self.spec_resolution(conflict@),
                old(changes)@,
                final(changes)@,
                res,
            ),
            old(changes)@.is_prefix_of(final(changes)@),
    {
        match self {
            TypePolicy::Simple(policy) => policy.resolve_conflict(conflict, changes),
        }
    }
}

/// The failure by which a conflict stops a merge, given what the registry
/// makes of the conflict: a kind that is not registered is a configuration
/// error, which carries the tag of the kind; a record that cannot be read is
/// malformed, and the failure says what is wrong with it; an escalation
/// hands back both records. A conflict whose records merge stops no merge.
pub open spec fn refused(
    conflict: ConflictView,
    outcome: Option<Resolution>,
    e: FanlingError,
) -> bool {
    match outcome {
        None => e matches FanlingError::Configuration(m) && m@ == conflict.kind,
        Some(Resolution::Malformed(words)) => e matches FanlingError::Deserialize(m) && m@
            == words,
        Some(Resolution::Escalated) => {
            &&& e matches FanlingError::ConflictUnresolvable(escalation)
            &&& escalation.ident@ == conflict.ident
            &&& escalation.ours@ == conflict.ours.record
            &&& escalation.theirs@ == conflict.theirs.record
        },
        Some(Resolution::Merged(_)) => false,
    }
}

/// The write by which a conflict is settled, given what the registry makes
/// of the conflict: the merged record, under the identifier of the item.
pub open spec fn written(
    conflict: ConflictView,
    outcome: Option<Resolution>,
    change: ChangeView,
) -> bool {
    outcome matches Some(Resolution::Merged(record)) && change == ChangeView {
        ident: conflict.ident,
        record: yaml_text(record),
    }
}

/// Why a record gives no item.
pub enum ReadFault {
    /// The record is not a mapping, does not name its item or its kind, or
    /// does not hold the data of its kind: what is wrong with it.
    Malformed(Seq<char>),
    /// The record names a kind that is not registered: the tag it names.
    Unregistered(Seq<char>),
}

/// The kinds that are registered, each with its policy.
#[derive(Clone, Copy, Debug)]
pub struct Registry {
    simple: Option<SimpleTypePolicy>,
}

impl Registry {
    /// The policy that is registered under `tag`, if there is one.
    pub closed spec fn spec_policy(&self, tag: Seq<char>) -> Option<TypePolicy> {
        match ItemKind::spec_from_tag(tag) {
            Some(ItemKind::Simple) => match self.simple {
                Some(policy) => Some(TypePolicy::Simple(policy)),
                None => None,
            },
            None => None,
        }
    }

    /// What the registry makes of a conflict: what the policy of the
    /// conflict's kind makes of it, and nothing where the kind is not
    /// registered.
    pub open spec fn spec_outcome(&self, conflict: ConflictView) -> Option<Resolution> {
        match self.spec_policy(conflict.kind) {
            Some(policy) => Some(policy.spec_resolution(conflict)),
            None => None,
        }
    }

    /// The item that a record holds: the record must be a mapping that
    /// names its item under `ident` and its kind under `kind`; the kind must be
    /// registered; and the record must hold the data of that kind. The first
    /// of these that fails, in this order, gives the fault.
    pub open spec fn spec_read(&self, document: YamlView) -> Result<
        (ItemBaseView, PayloadView),
        ReadFault,
    > {
        match document {
            YamlView::Invalid(words) => Err(ReadFault::Malformed(words)),
            YamlView::Other => Err(ReadFault::Malformed("record is not a mapping"@)),
            YamlView::Mapping(entries) => {
                let fields = fold_entries(entries);
                if !fields.contains_key("ident"@) {
                    if document_names(document, "ident"@) {
                        Err(ReadFault::Malformed("field `ident` is not text"@))
                    } else {
                        Err(ReadFault::Malformed("missing field `ident`"@))
                    }
                } else if !fields.contains_key("kind"@) {
                    if document_names(document, "kind"@) {
                        Err(ReadFault::Malformed("field `kind` is not text"@))
                    } else {
                        Err(ReadFault::Malformed("missing field `kind`"@))
                    }
                } else {
                    match self.spec_policy(fields["kind"@]) {
                        Some(policy) => match policy.spec_payload(document) {
                            Some(data) => Ok(
                                (
                                    ItemBaseView {
                                        ident: fields["ident"@],
                                        kind: policy.spec_kind(),
                                    },
                                    data,
                                ),
                            ),
                            None => Err(ReadFault::Malformed(policy.spec_payload_fault(document))),
                        },
                        None => Err(ReadFault::Unregistered(fields["kind"@])),
                    }
                }
            },
        }
    }

    /// The registry without any kind.
    pub fn new() -> (res: Self)
        ensures
            forall|tag: Seq<char>| res.spec_policy(tag) is None,
    {
        Registry { simple: None }
    }

    /// Registers `policy` under `tag`, in the place of what was registered
    /// there. The tag must be that of the policy's kind; any other is a
    /// configuration error and leaves the registry as it was.
    pub fn register_kind(&mut self, tag: &str, policy: TypePolicy) -> (res: Result<
        (),
        FanlingError,
    >)
        ensures
            if tag@ == policy.spec_kind().spec_tag() {
                &&& res is Ok
                &&& forall|t: Seq<char>|
                    final(self).spec_policy(t) == if t == tag@ {
                        Some(policy)
                    } else {
                        old(self).spec_policy(t)
                    }
            } else {
                &&& res matches Err(FanlingError::Configuration(m))
                &&& m@ == tag@
                &&& *final(self) == *old(self)
            },
    {
        if tag.to_owned() == policy.kind().tag().to_owned() {
            match policy {
                TypePolicy::Simple(simple) => {
                    self.simple = Some(simple);
                },
            }
            Ok(())
        } else {
            Err(FanlingError::Configuration(tag.to_owned()))
        }
    }

    /// The policy that is registered under `tag`. A tag without a policy is
    /// a configuration error, which carries the tag.
    pub fn policy(&self, tag: &str) -> (res: Result<TypePolicy, FanlingError>)
        ensures
            match self.spec_policy(tag@) {
                Some(policy) => res == Ok::<TypePolicy, FanlingError>(policy),
                None => res matches Err(FanlingError::Configuration(m)) && m@ == tag@,
            },
    {
        match ItemKind::from_tag(tag) {
            Some(ItemKind::Simple) => match self.simple {
                Some(policy) => Ok(TypePolicy::Simple(policy)),
                None => Err(FanlingError::Configuration(tag.to_owned())),
            },
            None => Err(FanlingError::Configuration(tag.to_owned())),
        }
    }

    /// A new item of the kind registered under `tag`, under the identifier
    /// `ident`, with the empty data of the kind. A tag without a policy is a configuration
    /// error.
    pub fn make_item(&self, tag: &str, ident: &str) -> (res: Result<Item, FanlingError>)
        ensures
            match self.spec_policy(tag@) {
                Some(policy) => {
                    &&& res matches Ok(item)
                    &&& item.wf()
                    &&& item.spec_base()@.ident == ident@
                    &&& item.spec_base()@.kind == policy.spec_kind()
                    &&& item.spec_data()@ == policy.spec_empty()
                },
                None => res matches Err(FanlingError::Configuration(m)) && m@ == tag@,
            },
    {
        match self.policy(tag) {
            Ok(policy) => Ok(policy.make_raw(ident)),
            Err(e) => Err(e),
        }
    }

    /// The item that a record holds. A record that is malformed fails as
    /// such; one that names a kind without a policy is a configuration error,
    /// which carries the tag of the kind.
    pub fn read_document(&self, document: &Document) -> (res: Result<Item, FanlingError>)
        ensures
            match self.spec_read(document@) {
                Ok((base, data)) => {
                    &&& res matches Ok(item)
                    &&& item.wf()
                    &&& item.spec_base()@ == base
                    &&& item.spec_data()@ == data
                },
                Err(ReadFault::Malformed(words)) => res matches Err(
                    FanlingError::Deserialize(m),
                ) && m@ == words,
                Err(ReadFault::Unregistered(tag)) => res matches Err(
                    FanlingError::Configuration(m),
                ) && m@ == tag,
            },
    {
        let fields = match fields_of(document) {
            Some(fields) => fields,
            None => {
                return Err(FanlingError::Deserialize("record is not a mapping".to_owned()));
            },
        };
        let ident = match fields.get("ident") {
            Some(ident) => ident,
            None => {
                let words = if names(document, "ident") {
                    "field `ident` is not text"
                } else {
                    "missing field `ident`"
                };
                return Err(FanlingError::Deserialize(words.to_owned()));
            },
        };
        let tag = match fields.get("kind") {
            Some(tag) => tag,
            None => {
                let words = if names(document, "kind") {
                    "field `kind` is not text"
                } else {
                    "missing field `kind`"
                };
                return Err(FanlingError::Deserialize(words.to_owned()));
            },
        };
        let policy = match self.policy(tag.as_str()) {
            Ok(policy) => policy,
            Err(e) => {
                return Err(e);
            },
        };
        match policy.read_payload(document) {
            Ok(data) => Ok(Item::new_with_data(ident.as_str(), data)),
            Err(e) => Err(e),
        }
    }

    /// The item that the YAML text of a record holds. A text that is not
    /// YAML is a malformed record, whose failure carries the words of the YAML
    /// reader; so is a text with too many nesting marks.
    pub fn read_item(&self, bytes: &[u8]) -> (res: Result<Item, FanlingError>)
        ensures
            match self.spec_read(yaml_read(bytes@)) {
                Ok((base, data)) => {
                    &&& res matches Ok(item)
                    &&& item.wf()
                    &&& item.spec_base()@ == base
                    &&& item.spec_data()@ == data
                },
                Err(ReadFault::Malformed(words)) => res matches Err(
                    FanlingError::Deserialize(m),
                ) && m@ == words,
                Err(ReadFault::Unregistered(tag)) => res matches Err(
                    FanlingError::Configuration(m),
                ) && m@ == tag,
            },
    {
        match read_document(bytes) {
            Ok(document) => self.read_document(&document),
            Err(e) => Err(e),
        }
    }

    /// Settles one conflict by the policy of its kind. A kind that is not
    /// registered is a configuration error and leaves `changes` as it was.
    pub fn resolve_conflict(&self, conflict: &Conflict, changes: &mut ChangeList) -> (res: Result<
        (),
        FanlingError,
    >)
        ensures
            match self.spec_outcome(conflict@) {
                Some(resolution) => settled(
                    conflict@,
                    resolution,
                    old(changes)@,
                    final(changes)@,
                    res,
                ),
                None => {
                    &&& res matches Err(FanlingError::Configuration(m))
                    &&& m@ == conflict@.kind
                    &&& final(changes)@ == old(changes)@
                },
            },
            old(changes)@.is_prefix_of(final(changes)@),
    {
        match self.policy(conflict.kind.as_str()) {
            Ok(policy) => policy.resolve_conflict(conflict, changes),
            Err(e) => Err(e),
        }
    }

    /// Settles the conflicts of one merge, in their order, into one list of
    /// writes. The list comes back only if every conflict was settled, and
    /// then it holds one write for each conflict, in their order. The first
    /// conflict that is not settled stops the merge with its failure, and no
    /// write of the merge is handed out: a merge is settled as a whole or not
    /// at all.
    pub fn resolve_all(&self, conflicts: &Vec<Conflict>) -> (res: Result<ChangeList, FanlingError>)
        ensures
            match res {
                Ok(changes) => {
                    &&& changes@.len() == conflicts@.len()
                    &&& forall|i: int|
                        0 <= i < conflicts@.len() ==> written(
                            conflicts@[i]@,
                            self.spec_outcome(conflicts@[i]@),
                            #[trigger] changes@[i],
                        )
                },
                Err(e) => exists|i: int|
                    {
                        &&& 0 <= i < conflicts@.len()
                        &&& #[trigger] refused(conflicts@[i]@, self.spec_outcome(conflicts@[i]@), e)
                        &&& forall|j: int|
                            0 <= j < i ==> #[trigger] self.spec_outcome(
                                conflicts@[j]@,
                            ) matches Some(Resolution::Merged(_))
                    },
            },
    {
        let mut changes = ChangeList::new();
        let mut i: usize = 0;
        while i < conflicts.len()
            invariant
                i <= conflicts@.len(),
                changes@.len() == i,
                forall|j: int|
                    0 <= j < i ==> written(
                        conflicts@[j]@,
                        self.spec_outcome(conflicts@[j]@),
                        #[trigger] changes@[j],
                    ),
            decreases conflicts@.len() - i,
        {
            let ghost before = changes@;
            match self.resolve_conflict(&conflicts[i], &mut changes) {
                Ok(()) => {
                    assert(changes@[i as int] == before.push(changes@[i as int])[i as int]);
                    assert forall|j: int| 0 <= j < i + 1 implies written(
                        conflicts@[j]@,
                        self.spec_outcome(conflicts@[j]@),
                        #[trigger] changes@[j],
                    ) by {
                        if j < i {
                            assert(changes@[j] == before[j]);
                        }
                    }
                },
                Err(e) => {
                    assert(refused(
                        conflicts@[i as int]@,
                        self.spec_outcome(conflicts@[i as int]@),
                        e,
                    ));
                    assert forall|j: int| 0 <= j < i implies #[trigger] self.spec_outcome(
                        conflicts@[j]@,
                    ) matches Some(Resolution::Merged(_)) by {
                        assert(written(
                            conflicts@[j]@,
                            self.spec_outcome(conflicts@[j]@),
                            changes@[j],
                        ));
                    }
                    return Err(e);
                },
            }
            i = i + 1;
        }
        Ok(changes)
    }
}

/// Reading back the record of an item whose kind is registered gives the
/// item: the same identifier, the same kind and the same data, and with them
/// the same description and the same answers to whether it is open or ready.
pub proof fn lemma_item_round_trip(registry: Registry, base: ItemBaseView, data: Payload)
    requires
        registry.spec_policy(base.kind.spec_tag()) is Some,
        data.spec_kind() == base.kind,
    ensures
        registry.spec_read(mapping_of(data.spec_record(base))) == Ok::<
            (ItemBaseView, PayloadView),
            ReadFault,
        >((base, data@)),
{
    match data {
        Payload::Simple(page) => {
            lemma_record_fields(base, page@);
            lemma_record_round_trip(base, page@);
            reveal_strlit("ident");
            reveal_strlit("kind");
            reveal_strlit("name");
            reveal_strlit("text");
            assert("ident"@.len() != "kind"@.len());
            assert("kind"@[0] != "name"@[0]);
            assert("kind"@[0] != "text"@[0]);
        },
    }
}

} // verus!

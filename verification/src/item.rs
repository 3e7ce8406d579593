//! What every item has, whatever its kind.

use crate::action::Action;
use crate::error::FanlingError;
use crate::fields::FieldMap;
use crate::response::{ActionResponse, Response};
use crate::simple::{Simple, SimpleView};
use crate::world::World;
use crate::yaml::{yaml_read, yaml_text, Document};
use vstd::prelude::*;

verus! {

/// The kinds of item. Each kind has a tag, under which its policy is
/// registered and which its records carry.
#[derive(Clone, Copy, Debug, PartialEq, Eq, Structural)]
pub enum ItemKind {
    /// A free-text page, like a page of a wiki.
    Simple,
}

impl ItemKind {
    /// The kind's tag.
    pub open spec fn spec_tag(self) -> Seq<char> {
        match self {
            ItemKind::Simple => "simple"@,
        }
    }

    /// The kind's tag, under which the kind is found again.
    pub fn tag(self) -> (res: &'static str)
        ensures
            res@ == self.spec_tag(),
            Self::spec_from_tag(res@) == Some(self),
    {
        match self {
            ItemKind::Simple => "simple",
        }
    }

    /// The kind that carries the tag `tag`, if there is one.
    pub open spec fn spec_from_tag(tag: Seq<char>) -> Option<ItemKind> {
        if tag == "simple"@ {
            Some(ItemKind::Simple)
        } else {
            None
        }
    }

    /// The kind that carries the tag `tag`, if there is one.
    pub fn from_tag(tag: &str) -> (res: Option<ItemKind>)
        ensures
            res == Self::spec_from_tag(tag@),
    {
        if tag.to_owned() == "simple".to_owned() {
            Some(ItemKind::Simple)
        } else {
            None
        }
    }
}

/// What an [`ItemBase`] holds.
pub struct ItemBaseView {
    /// The identifier.
    pub ident: Seq<char>,
    /// The kind.
    pub kind: ItemKind,
}

/// The part of an item that does not depend on its kind: its stable
/// identifier and its kind. Neither changes once the item is made. Whether
/// the item is open or ready is not kept here: it is asked of the payload.
#[derive(Clone, Debug)]
pub struct ItemBase {
    ident: String,
    kind: ItemKind,
}

impl View for ItemBase {
    type V = ItemBaseView;

    closed spec fn view(&self) -> ItemBaseView {
        ItemBaseView { ident: self.ident@, kind: self.kind }
    }
}

impl ItemBase {
    /// The base of the item `ident`, of kind `kind`.
    pub fn new(ident: &str, kind: ItemKind) -> (res: Self)
        ensures
            res@.ident == ident@,
            res@.kind == kind,
    {
        ItemBase { ident: ident.to_owned(), kind }
    }

    /// The identifier.
    pub fn ident(&self) -> (res: &String)
        ensures
            res@ == self@.ident,
    {
        &self.ident
    }

    /// The kind.
    pub fn kind(&self) -> (res: ItemKind)
        ensures
            res == self@.kind,
    {
        self.kind
    }
}

/// The data of an item, which depends on its kind: one variant for each
/// kind. Every operation on the data is handed to the kind.
#[derive(Clone, Debug)]
pub enum Payload {
    /// The page of a simple item.
    Simple(Simple),
}

/// What a [`Payload`] holds.
pub enum PayloadView {
    /// The page of a simple item.
    Simple(SimpleView),
}

impl View for Payload {
    type V = PayloadView;

    open spec fn view(&self) -> PayloadView {
        match *self {
            Payload::Simple(page) => PayloadView::Simple(page@),
        }
    }
}

impl Payload {
    /// The fields of the record of the data, in their order.
    pub open spec fn spec_record(&self, base: ItemBaseView) -> Seq<(Seq<char>, Seq<char>)> {
        match *self {
            Payload::Simple(page) => Simple::spec_record(base, page@),
        }
    }

    /// The fragments of the edit form.
    pub open spec fn spec_edit_tags(&self, base: ItemBaseView, is_for_update: bool) -> Map<
        Seq<char>,
        Seq<char>,
    > {
        match *self {
            Payload::Simple(page) => Simple::spec_edit_tags(page@, base, is_for_update),
        }
    }

    /// The error markers that the edit form clears.
    pub open spec fn spec_edit_markers(&self) -> Seq<Seq<char>> {
        match *self {
            Payload::Simple(_) => seq!["name-error"@],
        }
    }

    /// The fragments of the item as it is shown.
    pub open spec fn spec_show_tags(&self, base: ItemBaseView) -> Map<Seq<char>, Seq<char>> {
        match *self {
            Payload::Simple(page) => Simple::spec_show_tags(page@, base),
        }
    }

    /// The checks that an update fails.
    pub open spec fn spec_update_failures(&self, vals: Map<Seq<char>, Seq<char>>) -> Seq<
        (Seq<char>, Seq<char>),
    > {
        match *self {
            Payload::Simple(_) => Simple::spec_update_failures(vals),
        }
    }

    /// The kind that the payload belongs to.
    pub open spec fn spec_kind(&self) -> ItemKind {
        match *self {
            Payload::Simple(_) => ItemKind::Simple,
        }
    }

    /// A short label for the item.
    pub open spec fn spec_description(&self) -> Seq<char> {
        match *self {
            Payload::Simple(page) => page@.name,
        }
    }

    /// The kind that the payload belongs to.
    pub fn kind(&self) -> (res: ItemKind)
        ensures
            res == self.spec_kind(),
    {
        match self {
            Payload::Simple(_) => ItemKind::Simple,
        }
    }

    /// Whether the item is open. A simple item always is.
    pub open spec fn spec_is_open(&self) -> bool {
        match *self {
            Payload::Simple(_) => true,
        }
    }

    /// Whether the item is ready. A simple item always is.
    pub open spec fn spec_is_ready(&self) -> bool {
        match *self {
            Payload::Simple(_) => true,
        }
    }

    /// Whether the item is open.
    pub fn is_open(&self) -> (res: bool)
        ensures
            res == self.spec_is_open(),
    {
        match self {
            Payload::Simple(page) => page.is_open(),
        }
    }

    /// Whether the item is ready.
    pub fn is_ready(&self) -> (res: bool)
        ensures
            res == self.spec_is_ready(),
    {
        match self {
            Payload::Simple(page) => page.is_ready(),
        }
    }

    /// A short label for the item.
    pub fn description(&self) -> (res: String)
        ensures
            res@ == self.spec_description(),
    {
        match self {
            Payload::Simple(page) => page.description(),
        }
    }

    /// The rendering payload of the edit form.
    pub fn for_edit(&self, base: &ItemBase, is_for_update: bool, world: &World) -> (res: Response)
        ensures
            res@.tags == self.spec_edit_tags(base@, is_for_update),
            res@.cleared == self.spec_edit_markers(),
    {
        match self {
            Payload::Simple(page) => page.for_edit(base, is_for_update, world),
        }
    }

    /// The rendering payload of the item as it is shown.
    pub fn for_show(&self, base: &ItemBase, world: &World) -> (res: Response)
        ensures
            res@.tags == self.spec_show_tags(base@),
            res@.cleared == Seq::<Seq<char>>::empty(),
    {
        match self {
            Payload::Simple(page) => page.for_show(base, world),
        }
    }

    /// The record of the item as YAML text: one flat mapping that holds the
    /// fields of the base and those of the data. Writing always succeeds.
    pub fn to_yaml(&self, base: &ItemBase) -> (res: Result<Vec<u8>, FanlingError>)
        ensures
            res matches Ok(bytes) && bytes@ == yaml_text(self.spec_record(base@)),
    {
        match self {
            Payload::Simple(page) => page.to_yaml(base),
        }
    }

    /// Takes the data over from user input; on failure the data stays as
    /// it was.
    pub fn set_data(&mut self, vals: &FieldMap, world: &World) -> (res: Result<(), FanlingError>)
        ensures
            match (*old(self), *final(self)) {
                (Payload::Simple(before), Payload::Simple(after)) => Simple::spec_set_data(
                    before,
                    vals@,
                    after,
                    res,
                ),
            },
    {
        match self {
            Payload::Simple(page) => page.set_data(vals, world),
        }
    }

    /// Checks an update before it is applied, and reports every check that
    /// fails. The data is not changed.
    pub fn try_update(&self, base: &ItemBase, vals: &FieldMap, world: &World) -> (res:
        ActionResponse)
        ensures
            res@ == self.spec_update_failures(vals@),
    {
        match self {
            Payload::Simple(page) => page.try_update(base, vals, world),
        }
    }

    /// Takes the data over from a record that was read; on failure the data
    /// stays as it was.
    pub fn set_from_yaml(&mut self, yaml: &Document, world: &World) -> (res: Result<
        (),
        FanlingError,
    >)
        ensures
            match (*old(self), *final(self)) {
                (Payload::Simple(before), Payload::Simple(after)) => Simple::spec_set_from(
                    before,
                    yaml@,
                    after,
                    res,
                ),
            },
    {
        match self {
            Payload::Simple(page) => page.set_from_yaml(yaml, world),
        }
    }

    /// Takes the data over from the YAML text of a record; on failure the
    /// data stays as it was.
    pub fn decode(&mut self, bytes: &[u8], world: &World) -> (res: Result<(), FanlingError>)
        ensures
            match (*old(self), *final(self)) {
                (Payload::Simple(before), Payload::Simple(after)) => Simple::spec_set_from(
                    before,
                    yaml_read(bytes@),
                    after,
                    res,
                ),
            },
    {
        match self {
            Payload::Simple(page) => page.decode(bytes, world),
        }
    }

    /// A copy of the data that shares nothing with it.
    pub fn fanling_clone(&self) -> (res: Result<Payload, FanlingError>)
        ensures
            res matches Ok(copy) && copy@ == self@,
    {
        match self {
            Payload::Simple(page) => match page.fanling_clone() {
                Ok(copy) => Ok(Payload::Simple(*copy)),
                Err(e) => Err(e),
            },
        }
    }

    /// Hands `action` to the kind. A simple item has no actions: the call
    /// fails as a fault of the caller and changes nothing.
    pub fn do_action(&mut self, base: &ItemBase, action: Action, world: &World) -> (res: Result<
        Response,
        FanlingError,
    >)
        ensures
            match *old(self) {
                Payload::Simple(_) => {
                    &&& res matches Err(FanlingError::Programming(m))
                    &&& m@ == Simple::spec_no_action()
                    &&& *final(self) == *old(self)
                },
            },
    {
        match self {
            Payload::Simple(page) => page.do_action(base, action, world),
        }
    }
}

/// An item: its base and the data of its kind. The data is always of the
/// kind that the base names.
#[derive(Clone, Debug)]
pub struct Item {
    base: ItemBase,
    data: Payload,
}

impl Item {
    /// Whether the data is of the kind that the base names. Every item
    /// that this library makes is so, and stays so.
    pub open spec fn wf(&self) -> bool {
        self.spec_data().spec_kind() == self.spec_base()@.kind
    }

    /// The base of the item.
    pub closed spec fn spec_base(&self) -> ItemBase {
        self.base
    }

    /// The data of the item.
    pub closed spec fn spec_data(&self) -> Payload {
        self.data
    }

    /// The item `ident` with the data `data`; its kind is that of the data.
    pub fn new_with_data(ident: &str, data: Payload) -> (res: Item)
        ensures
            res.wf(),
            res.spec_base()@.ident == ident@,
            res.spec_data() == data,
    {
        let base = ItemBase::new(ident, data.kind());
        Item { base, data }
    }

    /// The base of the item.
    pub fn base(&self) -> (res: &ItemBase)
        ensures
            *res == self.spec_base(),
    {
        &self.base
    }

    /// The data of the item.
    pub fn data(&self) -> (res: &Payload)
        ensures
            *res == self.spec_data(),
    {
        &self.data
    }

    /// The record of the item as YAML text: one flat mapping that holds the
    /// fields of the base and those of the data. Writing always succeeds.
    pub fn to_yaml(&self) -> (res: Result<Vec<u8>, FanlingError>)
        ensures
            res matches Ok(bytes) && bytes@ == yaml_text(
                self.spec_data().spec_record(self.spec_base()@),
            ),
    {
        self.data.to_yaml(&self.base)
    }

    /// Puts `data` in the place of the item's data. Data of another kind
    /// is refused and handed back, and the item stays as it was.
    pub fn set_payload(&mut self, data: Payload) -> (res: Result<(), Payload>)
        ensures
            old(self).wf() ==> final(self).wf(),
            final(self).spec_base() == old(self).spec_base(),
            match res {
                Ok(()) => data.spec_kind() == old(self).spec_base()@.kind && final(self).spec_data()
                    == data,
                Err(back) => data.spec_kind() != old(self).spec_base()@.kind && back == data
                    && *final(self) == *old(self),
            },
    {
        if data.kind() == self.base.kind() {
            self.data = data;
            Ok(())
        } else {
            Err(data)
        }
    }

    /// Hands `action` to the data of the item, with the item's base.
    pub fn do_action(&mut self, action: Action, world: &World) -> (res: Result<
        Response,
        FanlingError,
    >)
        ensures
            old(self).wf() ==> final(self).wf(),
            final(self).spec_base() == old(self).spec_base(),
            match old(self).spec_data() {
                Payload::Simple(_) => {
                    &&& res matches Err(FanlingError::Programming(m))
                    &&& m@ == Simple::spec_no_action()
                    &&& *final(self) == *old(self)
                },
            },
    {
        self.data.do_action(&self.base, action, world)
    }
}

} // verus!

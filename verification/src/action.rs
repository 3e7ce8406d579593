//! The actions that a kind may offer on its items, and their dispatch.

use crate::error::FanlingError;
use crate::item::{Item, Payload};
use crate::response::Response;
use crate::simple::Simple;
use crate::world::World;
use vstd::prelude::*;

verus! {

/// A transition that a kind may offer on its items.
#[derive(Clone, Copy, Debug, PartialEq, Eq, Structural)]
pub enum Action {
    /// Close the item.
    Close,
    /// Open the item again.
    Reopen,
}

impl Action {
    /// The action that `name` identifies, if there is one.
    pub open spec fn spec_from_name(name: Seq<char>) -> Option<Action> {
        if name == "close"@ {
            Some(Action::Close)
        } else if name == "reopen"@ {
            Some(Action::Reopen)
        } else {
            None
        }
    }

    /// The action that `name` identifies, if there is one.
    pub fn from_name(name: &str) -> (res: Option<Action>)
        ensures
            res == Self::spec_from_name(name@),
    {
        let name = name.to_owned();
        if name == "close".to_owned() {
            Some(Action::Close)
        } else if name == "reopen".to_owned() {
            Some(Action::Reopen)
        } else {
            None
        }
    }
}

/// Hands the action that `name` identifies to `item`. A name that
/// identifies no action fails as an unknown action, which carries the name,
/// and leaves the item as it was; this failure is not the one by which a
/// kind refuses an action that it does not offer.
pub fn dispatch(name: &str, item: &mut Item, world: &World) -> (res: Result<Response, FanlingError>)
    ensures
        old(item).wf() ==> final(item).wf(),
        final(item).spec_base() == old(item).spec_base(),
        match Action::spec_from_name(name@) {
            None => res matches Err(FanlingError::UnknownAction(m)) && m@ == name@ && *final(item)
                == *old(item),
            Some(_) => match old(item).spec_data() {
                Payload::Simple(_) => {
                    &&& res matches Err(FanlingError::Programming(m))
                    &&& m@ == Simple::spec_no_action()
                    &&& *final(item) == *old(item)
                },
            },
        },
{
    match Action::from_name(name) {
        Some(action) => item.do_action(action, world),
        None => Err(FanlingError::UnknownAction(name.to_owned())),
    }
}

} // verus!

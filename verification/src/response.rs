//! What an operation hands back to the user interface.

use crate::error::FanlingError;
use crate::fields::FieldMap;
use vstd::prelude::*;

verus! {

/// The views of the texts in `s`, in order.
pub open spec fn texts_view(s: Seq<String>) -> Seq<Seq<char>> {
    Seq::new(s.len(), |i: int| s[i]@)
}

/// The views of the pairs of texts in `s`, in order.
pub open spec fn pairs_view(s: Seq<(String, String)>) -> Seq<(Seq<char>, Seq<char>)> {
    Seq::new(s.len(), |i: int| (s[i].0@, s[i].1@))
}

/// What a [`Response`] holds.
pub struct ResponseView {
    /// The fragment under each placeholder tag.
    pub tags: Map<Seq<char>, Seq<char>>,
    /// The error markers that the user interface is to remove, in the order
    /// in which they were named.
    pub cleared: Seq<Seq<char>>,
}

/// A rendering payload: fragments of content, each under the name of the
/// placeholder that it fills, and the error markers to remove.
#[derive(Clone, Debug)]
pub struct Response {
    tags: FieldMap,
    cleared: Vec<String>,
}

impl View for Response {
    type V = ResponseView;

    closed spec fn view(&self) -> ResponseView {
        ResponseView { tags: self.tags@, cleared: texts_view(self.cleared@) }
    }
}

impl Response {
    /// The payload without fragments or markers.
    pub fn new() -> (res: Self)
        ensures
            res@.tags == Map::<Seq<char>, Seq<char>>::empty(),
            res@.cleared == Seq::<Seq<char>>::empty(),
    {
        let res = Response { tags: FieldMap::new(), cleared: Vec::new() };
        assert(texts_view(res.cleared@) =~= Seq::empty());
        res
    }

    /// Puts `content` under the placeholder `tag`, replacing what was there.
    pub fn add_tag(&mut self, tag: &str, content: &str)
        ensures
            final(self)@.tags == old(self)@.tags.insert(tag@, content@),
            final(self)@.cleared == old(self)@.cleared,
    {
        self.tags.insert(tag, content);
    }

    /// Asks the user interface to remove the error markers `markers`.
    pub fn clear_errors(&mut self, markers: Vec<String>)
        ensures
            final(self)@.tags == old(self)@.tags,
            final(self)@.cleared == old(self)@.cleared + texts_view(markers@),
    {
        let ghost before = self.cleared@;
        let ghost added = markers@;
        let mut markers = markers;
        self.cleared.append(&mut markers);
        assert(texts_view(self.cleared@) =~= texts_view(before) + texts_view(added));
    }

    /// The fragment under the placeholder `tag`, if there is one.
    pub fn tag(&self, tag: &str) -> (res: Option<&String>)
        ensures
            res is Some <==> self@.tags.contains_key(tag@),
            res matches Some(content) ==> content@ == self@.tags[tag@],
    {
        self.tags.get(tag)
    }

    /// The error markers to remove.
    pub fn cleared_errors(&self) -> (res: &Vec<String>)
        ensures
            texts_view(res@) == self@.cleared,
    {
        &self.cleared
    }

    /// The response that leaves for the user interface, given what the view
    /// made of this payload: it holds the markup under the placeholder
    /// `content` and nothing beside it, the fragments being used up by the
    /// view, and it keeps the markers to clear. A failure of the view becomes
    /// a render error that carries the view's words.
    pub fn with_content(self, rendered: Result<String, String>) -> (res: Result<
        Response,
        FanlingError,
    >)
        ensures
            match rendered {
                Ok(markup) => res matches Ok(done) && done@.tags == Map::<
                    Seq<char>,
                    Seq<char>,
                >::empty().insert("content"@, markup@) && done@.cleared == self@.cleared,
                Err(words) => res matches Err(FanlingError::Render(m)) && m@ == words@,
            },
    {
        match rendered {
            Ok(markup) => {
                let ghost markers = self@.cleared;
                let mut done = Response::new();
                done.clear_errors(self.cleared);
                done.add_tag("content", markup.as_str());
                assert(done@.cleared =~= markers);
                Ok(done)
            },
            Err(words) => Err(FanlingError::Render(words)),
        }
    }
}

/// The outcome of checking an update: one entry, a marker and a message,
/// for every check that failed, in the order of the checks.
#[derive(Clone, Debug)]
pub struct ActionResponse {
    failures: Vec<(String, String)>,
}

impl View for ActionResponse {
    type V = Seq<(Seq<char>, Seq<char>)>;

    closed spec fn view(&self) -> Seq<(Seq<char>, Seq<char>)> {
        pairs_view(self.failures@)
    }
}

impl ActionResponse {
    /// The outcome before any check: a success.
    pub fn new() -> (res: Self)
        ensures
            res@ == Seq::<(Seq<char>, Seq<char>)>::empty(),
    {
        let res = ActionResponse { failures: Vec::new() };
        assert(pairs_view(res.failures@) =~= Seq::empty());
        res
    }

    /// Records the outcome of one check: where `ok` is false, the failure is
    /// kept under `marker` with `message`; where it is true, nothing changes.
    pub fn check(&mut self, ok: bool, marker: &str, message: &str)
        ensures
            final(self)@ == if ok {
                old(self)@
            } else {
                old(self)@.push((marker@, message@))
            },
    {
        if !ok {
            let ghost before = self.failures@;
            self.failures.push((marker.to_owned(), message.to_owned()));
            assert(pairs_view(self.failures@) =~= pairs_view(before).push((marker@, message@)));
        }
    }

    /// Whether every check passed.
    pub fn success(&self) -> (res: bool)
        ensures
            res == (self@.len() == 0),
    {
        self.failures.len() == 0
    }

    /// The failed checks, each as its marker and its message.
    pub fn failures(&self) -> (res: &Vec<(String, String)>)
        ensures
            pairs_view(res@) == self@,
    {
        &self.failures
    }
}

} // verus!

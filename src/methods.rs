//! Direct-method dispatch: a registry of handlers by unique name, and the
//! reply that a blocked caller receives after the handler's first poll.
use vstd::prelude::*;

use crate::error::TwinError;
use crate::json::{empty_map, insert_member, json_object, json_string, object_value, string_value, Members};

verus! {

/// The bound, in seconds, on a handler that is still driven after its caller
/// got the provisional reply; past it, the handler is dropped.
pub const HANDLER_LIFETIME_SECS: u64 = 60;

/// No two entries share a name.
pub open spec fn names_unique<H>(s: Seq<(Seq<char>, H)>) -> bool {
    forall|i: int, j: int| 0 <= i < j < s.len() ==> s[i].0 != s[j].0
}

/// Whether an entry is registered under `name`.
pub open spec fn is_registered<H>(s: Seq<(Seq<char>, H)>, name: Seq<char>) -> bool {
    exists|i: int| 0 <= i < s.len() && s[i].0 == name
}

/// The handlers that can be invoked, each under its own name.
pub struct MethodTable<H> {
    entries: Vec<(String, H)>,
}

impl<H> View for MethodTable<H> {
    type V = Seq<(Seq<char>, H)>;

    closed spec fn view(&self) -> Seq<(Seq<char>, H)> {
        self.entries@.map_values(|e: (String, H)| (e.0@, e.1))
    }
}

impl<H> MethodTable<H> {
    pub open spec fn wf(&self) -> bool {
        names_unique(self@)
    }

    /// A table with no handler.
    pub fn new() -> (r: Self)
        ensures
            r.wf(),
            r@ == Seq::<(Seq<char>, H)>::empty(),
    {
        let r = MethodTable { entries: Vec::new() };
        assert(r@ =~= Seq::<(Seq<char>, H)>::empty());
        r
    }

    /// How many handlers are registered.
    pub fn len(&self) -> (r: usize)
        ensures
            r == self@.len(),
    {
        self.entries.len()
    }

    /// The position of the handler registered under `name`, if any.
    pub fn lookup(&self, name: &String) -> (r: Option<usize>)
        ensures
            r is None <==> !is_registered(self@, name@),
            r matches Some(i) ==> i < self@.len() && self@[i as int].0 == name@,
    {
        let mut i: usize = 0;
        while i < self.entries.len()
            invariant
                i <= self.entries@.len(),
                self@.len() == self.entries@.len(),
                forall|j: int| 0 <= j < i ==> self@[j].0 != name@,
            decreases self.entries@.len() - i,
        {
            if self.entries[i].0 == *name {
                assert(self@[i as int].0 == name@);
                return Some(i);
            }
            i = i + 1;
        }
        None
    }

    /// The handler at position `i`.
    pub fn handler(&self, i: usize) -> (r: &H)
        requires
            i < self@.len(),
        ensures
            *r == self@[i as int].1,
    {
        &self.entries[i].1
    }

    /// Registers `handler` under `name`. A handler already registered under
    /// that name is replaced, keeping its position, and handed back.
    pub fn register(&mut self, name: String, handler: H) -> (r: Option<H>)
        requires
            old(self).wf(),
        ensures
            final(self).wf(),
            forall|i: int|
                0 <= i < old(self)@.len() && old(self)@[i].0 == name@ ==> final(self)@ == old(
                    self,
                )@.update(i, (name@, handler)) && r == Some(old(self)@[i].1),
            !is_registered(old(self)@, name@) ==> final(self)@ == old(self)@.push((name@, handler))
                && r is None,
    {
        match self.lookup(&name) {
            Some(i) => {
                let (_, previous) = self.entries.remove(i);
                self.entries.insert(i, (name, handler));
                assert(self@ =~= old(self)@.update(i as int, (name@, handler)));
                Some(previous)
            },
            None => {
                self.entries.push((name, handler));
                assert(self@ =~= old(self)@.push((name@, handler)));
                None
            },
        }
    }
}

/// What the blocked caller of a direct method receives once the handler has
/// been polled a single time without waiting: its own result when it is
/// ready then (`first_poll` is `Some`), otherwise `Ok(None)`. The second part
/// says whether the handler must still be driven to completion, its result
/// then going nowhere.
pub fn first_poll_reply<T, E>(first_poll: Option<Result<Option<T>, E>>) -> (r: (
    Result<Option<T>, E>,
    bool,
))
    ensures
        first_poll matches Some(done) ==> r.0 == done && !r.1,
        first_poll is None ==> r.0 is Ok && r.0->Ok_0 is None && r.1,
{
    match first_poll {
        Some(done) => (done, false),
        None => (Ok(None), true),
    }
}

/// The members of the echo handler's answer to `in_json`.
pub open spec fn echo_members(in_json: serde_json::Value) -> Members {
    Members::empty().insert("called function"@, json_string("mirror_func_params_as_result"@)).insert(
        "your param was"@,
        in_json,
    )
}

/// A handler that answers with an object naming itself and holding its
/// parameter.
pub fn mirror_func_params_as_result(in_json: serde_json::Value) -> (r: Result<
    Option<serde_json::Value>,
    TwinError,
>)
    ensures
        r matches Ok(Some(v)) && json_object(v) == Some(echo_members(in_json)),
{
    let mut out = empty_map();
    let _ = insert_member(&mut out, "called function".to_string(), string_value("mirror_func_params_as_result"));
    let _ = insert_member(&mut out, "your param was".to_string(), in_json);
    Ok(Some(object_value(out)))
}

} // verus!

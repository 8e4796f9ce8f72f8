//! Access to the interpreter, gated on the state of the calling thread.
//!
//! A thread may call into the interpreter only while it holds the global VM
//! lock (GVL). [`RubyGvlState`] classifies a thread from the interpreter's two
//! answers about it, [`GvlStateCache`] remembers the classifications that
//! cannot change, and [`RubyHandle`] is the token handed out when, and only
//! when, the thread is classified as holding the lock.

use std::marker::PhantomData;
use std::rc::Rc;
use vstd::prelude::*;
use vstd::string::StringExecFns;

verus! {

/// An error returned to indicate an attempt to interact with the Ruby API from
/// a non-Ruby thread or without acquiring the GVL.
#[derive(Clone, Copy, Debug, PartialEq, Eq, Structural)]
pub enum RubyUnavailableError {
    /// GVL is not locked.
    GvlUnlocked,
    /// Current thread is not a Ruby thread.
    NonRubyThread,
}

impl RubyUnavailableError {
    /// The text shown to the user for this error.
    pub open spec fn message_spec(self) -> Seq<char> {
        match self {
            RubyUnavailableError::NonRubyThread => "Current thread is not a Ruby thread."@,
            RubyUnavailableError::GvlUnlocked => "GVL is not locked."@,
        }
    }

    /// Renders the error as its fixed, user-facing sentence.
    pub fn message(&self) -> (text: String)
        ensures
            text@ == self.message_spec(),
    {
        match self {
            RubyUnavailableError::NonRubyThread => String::from_str(
                "Current thread is not a Ruby thread.",
            ),
            RubyUnavailableError::GvlUnlocked => String::from_str("GVL is not locked."),
        }
    }

    /// The two errors never render as the same text.
    pub proof fn messages_are_distinct(a: RubyUnavailableError, b: RubyUnavailableError)
        ensures
            a.message_spec() == b.message_spec() <==> a == b,
    {
        reveal_strlit("Current thread is not a Ruby thread.");
        reveal_strlit("GVL is not locked.");
        assert("Current thread is not a Ruby thread."@.len() != "GVL is not locked."@.len());
    }
}

/// How the calling thread stands towards the interpreter.
#[derive(Clone, Copy, Debug, PartialEq, Eq, Structural)]
pub enum RubyGvlState {
    /// A Ruby thread that holds the GVL: the API may be used.
    Locked,
    /// A Ruby thread that has released the GVL.
    Unlocked,
    /// A thread the interpreter does not know.
    NonRubyThread,
}

/// One thread's memory of its last classification.
///
/// Each thread owns one cache and never shares it. It starts empty and is
/// filled by [`RubyGvlState::current`].
#[derive(Clone, Copy, Debug)]
pub struct GvlStateCache {
    slot: Option<RubyGvlState>,
}

impl View for GvlStateCache {
    type V = Option<RubyGvlState>;

    closed spec fn view(&self) -> Option<RubyGvlState> {
        self.slot
    }
}

impl GvlStateCache {
    /// The cache of a thread that has not been classified yet.
    pub fn new() -> (cache: Self)
        ensures
            cache@ is None,
    {
        GvlStateCache { slot: None }
    }

    /// The classification last stored, whether or not it may still be relied on.
    pub fn last_observed(&self) -> (slot: Option<RubyGvlState>)
        ensures
            slot == self@,
    {
        self.slot
    }
}

impl RubyGvlState {
    /// The classification that the interpreter's two answers about a thread
    /// amount to: `has_gvl` is its answer to "does this thread hold the GVL?",
    /// `native_thread` its answer to "is this a thread of mine?", each zero
    /// for no and anything else for yes.
    pub open spec fn classify(has_gvl: i32, native_thread: i32) -> RubyGvlState {
        if has_gvl != 0 {
            RubyGvlState::Locked
        } else if native_thread != 0 {
            RubyGvlState::Unlocked
        } else {
            RubyGvlState::NonRubyThread
        }
    }

    /// Whether a stored classification is served from the cache. `Unlocked`
    /// is not: a thread may take the lock again behind the cache's back.
    pub open spec fn is_sticky(self) -> bool {
        self != RubyGvlState::Unlocked
    }

    /// What a cache answers without asking the interpreter, if anything.
    pub open spec fn lookup(slot: Option<RubyGvlState>) -> Option<RubyGvlState> {
        match slot {
            Some(state) if state.is_sticky() => Some(state),
            _ => None,
        }
    }

    /// The classification a thread arrives at, given its cache and the answers
    /// the interpreter would give if asked now.
    pub open spec fn resolve(
        slot: Option<RubyGvlState>,
        has_gvl: i32,
        native_thread: i32,
    ) -> RubyGvlState {
        match Self::lookup(slot) {
            Some(state) => state,
            None => Self::classify(has_gvl, native_thread),
        }
    }

    /// The cache after a thread has arrived at its classification.
    pub open spec fn resolved_slot(
        slot: Option<RubyGvlState>,
        has_gvl: i32,
        native_thread: i32,
    ) -> Option<RubyGvlState> {
        match Self::lookup(slot) {
            Some(_) => slot,
            None => Some(Self::classify(has_gvl, native_thread)),
        }
    }

    /// A cache is coherent with the interpreter's current answers when
    /// whatever it would serve is what a fresh classification yields.
    pub open spec fn coherent(
        slot: Option<RubyGvlState>,
        has_gvl: i32,
        native_thread: i32,
    ) -> bool {
        match Self::lookup(slot) {
            Some(state) => state == Self::classify(has_gvl, native_thread),
            None => true,
        }
    }

    /// Classifies the thread afresh from the interpreter's two answers and
    /// stores the outcome in the thread's cache.
    pub fn current(cache: &mut GvlStateCache, has_gvl: i32, native_thread: i32) -> (state: Self)
        ensures
            state == Self::classify(has_gvl, native_thread),
            state == RubyGvlState::Locked <==> has_gvl != 0,
            final(cache)@ == Some(state),
    {
        let current = if has_gvl != 0 {
            RubyGvlState::Locked
        } else if native_thread != 0 {
            RubyGvlState::Unlocked
        } else {
            RubyGvlState::NonRubyThread
        };
        cache.slot = Some(current);
        current
    }

    /// Answers from the cache where it can: `Some` with the stored
    /// classification if that is `Locked` or `NonRubyThread`, and `None` if the
    /// cache is empty or holds `Unlocked`, in which case the interpreter has to
    /// be asked and the answers given to [`RubyGvlState::current`].
    pub fn cached(cache: &GvlStateCache) -> (hit: Option<Self>)
        ensures
            hit == Self::lookup(cache@),
            hit is None <==> (cache@ is None || cache@ == Some(RubyGvlState::Unlocked)),
            hit is Some ==> hit == cache@,
    {
        match cache.slot {
            Some(RubyGvlState::Locked) => Some(RubyGvlState::Locked),
            None => None,
            Some(RubyGvlState::Unlocked) => None,
            Some(RubyGvlState::NonRubyThread) => Some(RubyGvlState::NonRubyThread),
        }
    }

    /// Hands `value` out if the thread holds the lock, and otherwise reports
    /// why the API cannot be used.
    pub fn ok<T>(self, value: T) -> (res: Result<T, RubyUnavailableError>)
        ensures
            res == Self::gate(self, value),
    {
        match self {
            RubyGvlState::Locked => Ok(value),
            RubyGvlState::Unlocked => Err(RubyUnavailableError::GvlUnlocked),
            RubyGvlState::NonRubyThread => Err(RubyUnavailableError::NonRubyThread),
        }
    }

    /// The outcome of gating `value` on a classification: each classification
    /// other than `Locked` has its own error.
    pub open spec fn gate<T>(state: RubyGvlState, value: T) -> Result<T, RubyUnavailableError> {
        match state {
            RubyGvlState::Locked => Ok(value),
            RubyGvlState::Unlocked => Err(RubyUnavailableError::GvlUnlocked),
            RubyGvlState::NonRubyThread => Err(RubyUnavailableError::NonRubyThread),
        }
    }

    /// A fresh classification is `Locked` exactly when the thread holds the
    /// lock, and a coherent cache never changes that.
    pub proof fn locked_iff_lock_held(slot: Option<RubyGvlState>, has_gvl: i32, native_thread: i32)
        requires
            Self::coherent(slot, has_gvl, native_thread),
        ensures
            Self::classify(has_gvl, native_thread) == RubyGvlState::Locked <==> has_gvl != 0,
            Self::resolve(slot, has_gvl, native_thread) == RubyGvlState::Locked <==> has_gvl != 0,
    {
    }

    /// A hit in a coherent cache is what asking the interpreter would have
    /// given: the cache saves the question and never changes the answer.
    pub proof fn cache_is_transparent(slot: Option<RubyGvlState>, has_gvl: i32, native_thread: i32)
        requires
            Self::coherent(slot, has_gvl, native_thread),
        ensures
            Self::resolve(slot, has_gvl, native_thread) == Self::classify(has_gvl, native_thread),
            Self::coherent(
                Self::resolved_slot(slot, has_gvl, native_thread),
                has_gvl,
                native_thread,
            ),
    {
    }

    /// The cache of a thread that started with an empty one and has since
    /// classified itself once for each entry of `history`, oldest first. An
    /// entry is the pair of answers the interpreter had at that moment.
    pub open spec fn slot_after(history: Seq<(i32, i32)>) -> Option<RubyGvlState>
        decreases history.len(),
    {
        if history.len() == 0 {
            None
        } else {
            let last = history.last();
            Self::resolved_slot(Self::slot_after(history.drop_last()), last.0, last.1)
        }
    }

    /// Whether, over `history`, a thread that was `Locked` or `NonRubyThread`
    /// stayed so: the one thing the cache relies on.
    pub open spec fn sticky_states_hold(history: Seq<(i32, i32)>) -> bool {
        forall|i: int|
            #![trigger history[i]]
            0 < i < history.len() && Self::classify(history[i - 1].0, history[i - 1].1).is_sticky()
                ==> Self::classify(history[i].0, history[i].1) == Self::classify(
                history[i - 1].0,
                history[i - 1].1,
            )
    }

    /// After any history the cache holds the latest classification, if there
    /// was one.
    pub proof fn cache_holds_latest(history: Seq<(i32, i32)>)
        requires
            Self::sticky_states_hold(history),
        ensures
            Self::slot_after(history) == if history.len() == 0 {
                None
            } else {
                Some(Self::classify(history.last().0, history.last().1))
            },
        decreases history.len(),
    {
        if history.len() > 0 {
            let earlier = history.drop_last();
            assert(Self::sticky_states_hold(earlier)) by {
                assert forall|i: int| 0 <= i < earlier.len() implies #[trigger] earlier[i]
                    == history[i] by {}
            }
            Self::cache_holds_latest(earlier);
            if earlier.len() > 0 {
                let at = history.len() - 1;
                assert(history[at] == history.last());
                assert(earlier.last() == history[at - 1]);
            }
        }
    }

    /// At every moment of a thread's life, a classification through the cache
    /// is the classification a fresh look would give, and so is `Locked`
    /// exactly when the thread holds the lock at that moment. `history` is
    /// what came before; `has_gvl` and `native_thread` are the interpreter's
    /// answers now.
    pub proof fn cached_classification_is_current(
        history: Seq<(i32, i32)>,
        has_gvl: i32,
        native_thread: i32,
    )
        requires
            Self::sticky_states_hold(history.push((has_gvl, native_thread))),
        ensures
            Self::coherent(Self::slot_after(history), has_gvl, native_thread),
            Self::resolve(Self::slot_after(history), has_gvl, native_thread) == Self::classify(
                has_gvl,
                native_thread,
            ),
            Self::resolve(Self::slot_after(history), has_gvl, native_thread)
                == RubyGvlState::Locked <==> has_gvl != 0,
    {
        let now = history.push((has_gvl, native_thread));
        assert(Self::sticky_states_hold(history)) by {
            assert forall|i: int| 0 <= i < history.len() implies #[trigger] history[i]
                == now[i] by {}
        }
        Self::cache_holds_latest(history);
        if history.len() > 0 {
            let at = history.len() as int;
            assert(now[at] == (has_gvl, native_thread));
            assert(now[at - 1] == history.last());
        }
    }

    /// Classifying twice while the interpreter's answers stay the same gives
    /// the same result both times, whatever the cache held before, and leaves
    /// the cache as the first classification left it.
    pub proof fn classification_is_idempotent(
        slot: Option<RubyGvlState>,
        has_gvl: i32,
        native_thread: i32,
    )
        ensures
            ({
                let first = Self::resolve(slot, has_gvl, native_thread);
                let after = Self::resolved_slot(slot, has_gvl, native_thread);
                &&& Self::resolve(after, has_gvl, native_thread) == first
                &&& Self::resolved_slot(after, has_gvl, native_thread) == after
                &&& after == Some(first)
            }),
    {
    }
}

/// A handle to access Ruby's API.
///
/// Using Ruby's API requires the Ruby VM to be initialised and all access to
/// be from a Ruby-created thread that holds the GVL. A handle carries nothing:
/// holding one is the evidence that a check came out as `Locked`. It cannot
/// be sent to, or shared with, another thread.
#[derive(Debug)]
pub struct RubyHandle {
    token: PhantomData<Rc<()>>,
}

impl RubyHandle {
    /// The handle that is handed out: there is one, and it carries nothing.
    pub closed spec fn granted() -> RubyHandle {
        RubyHandle { token: PhantomData }
    }

    /// Get a handle to Ruby's API.
    ///
    /// `state` is the calling thread's classification. Returns a handle if it
    /// is `Locked`, `Err(GvlUnlocked)` if it is `Unlocked`, and
    /// `Err(NonRubyThread)` if it is `NonRubyThread`.
    pub fn get(state: RubyGvlState) -> (res: Result<Self, RubyUnavailableError>)
        ensures
            res == RubyGvlState::gate(state, Self::granted()),
            res is Ok <==> state == RubyGvlState::Locked,
            res == Err::<Self, _>(RubyUnavailableError::GvlUnlocked) <==> state
                == RubyGvlState::Unlocked,
            res == Err::<Self, _>(RubyUnavailableError::NonRubyThread) <==> state
                == RubyGvlState::NonRubyThread,
    {
        state.ok(RubyHandle { token: PhantomData })
    }

    /// Get a handle to Ruby's API without a check at run time.
    ///
    /// The caller vouches that the thread is a Ruby thread that has not
    /// released the GVL, as it is inside a callback that Ruby itself invoked:
    /// `state` is that claim, and it has to be `Locked`. The handle returned
    /// is the one that [`RubyHandle::get`] hands out for a `Locked` thread.
    #[inline]
    pub fn get_unchecked(state: RubyGvlState) -> (handle: Self)
        requires
            state == RubyGvlState::Locked,
        ensures
            handle == Self::granted(),
            Ok::<Self, RubyUnavailableError>(handle) == RubyGvlState::gate(state, Self::granted()),
    {
        RubyHandle { token: PhantomData }
    }
}

} // verus!

use magnus::{GvlStateCache, RubyGvlState, RubyHandle, RubyUnavailableError};

/// Runs the lookup a thread makes: the cache first, the interpreter's
/// answers only on a miss. Counts how often the answers were needed.
fn classify(cache: &mut GvlStateCache, has_gvl: i32, native: i32, asked: &mut u32) -> RubyGvlState {
    match RubyGvlState::cached(cache) {
        Some(state) => state,
        None => {
            *asked += 1;
            RubyGvlState::current(cache, has_gvl, native)
        }
    }
}

#[test]
fn locked_ruby_thread_gets_a_handle() {
    let mut cache = GvlStateCache::new();
    let mut asked = 0;
    let state = classify(&mut cache, 1, 1, &mut asked);
    assert_eq!(state, RubyGvlState::Locked);
    assert!(RubyHandle::get(state).is_ok());
}

#[test]
fn unlocked_ruby_thread_is_refused() {
    let mut cache = GvlStateCache::new();
    let mut asked = 0;
    let state = classify(&mut cache, 0, 1, &mut asked);
    assert_eq!(state, RubyGvlState::Unlocked);
    assert!(matches!(
        RubyHandle::get(state),
        Err(RubyUnavailableError::GvlUnlocked)
    ));
}

#[test]
fn foreign_thread_is_refused() {
    let mut cache = GvlStateCache::new();
    let mut asked = 0;
    let state = classify(&mut cache, 0, 0, &mut asked);
    assert_eq!(state, RubyGvlState::NonRubyThread);
    assert!(matches!(
        RubyHandle::get(state),
        Err(RubyUnavailableError::NonRubyThread)
    ));
}

#[test]
fn lock_held_wins_over_thread_identity() {
    let mut cache = GvlStateCache::new();
    assert_eq!(RubyGvlState::current(&mut cache, 1, 0), RubyGvlState::Locked);
    assert_eq!(RubyGvlState::current(&mut cache, -1, 0), RubyGvlState::Locked);
    assert_eq!(RubyGvlState::current(&mut cache, 0, -7), RubyGvlState::Unlocked);
    assert_eq!(RubyGvlState::current(&mut cache, i32::MIN, i32::MAX), RubyGvlState::Locked);
}

#[test]
fn new_cache_is_empty_and_misses() {
    let cache = GvlStateCache::new();
    assert_eq!(cache.last_observed(), None);
    assert_eq!(RubyGvlState::cached(&cache), None);
}

#[test]
fn current_fills_the_cache() {
    let mut cache = GvlStateCache::new();
    RubyGvlState::current(&mut cache, 0, 1);
    assert_eq!(cache.last_observed(), Some(RubyGvlState::Unlocked));
    RubyGvlState::current(&mut cache, 0, 0);
    assert_eq!(cache.last_observed(), Some(RubyGvlState::NonRubyThread));
    RubyGvlState::current(&mut cache, 5, 0);
    assert_eq!(cache.last_observed(), Some(RubyGvlState::Locked));
}

#[test]
fn locked_and_foreign_are_served_from_the_cache() {
    let mut cache = GvlStateCache::new();
    RubyGvlState::current(&mut cache, 1, 1);
    assert_eq!(RubyGvlState::cached(&cache), Some(RubyGvlState::Locked));

    let mut cache = GvlStateCache::new();
    RubyGvlState::current(&mut cache, 0, 0);
    assert_eq!(RubyGvlState::cached(&cache), Some(RubyGvlState::NonRubyThread));
}

#[test]
fn unlocked_is_never_served_from_the_cache() {
    let mut cache = GvlStateCache::new();
    let mut asked = 0;
    assert_eq!(classify(&mut cache, 0, 1, &mut asked), RubyGvlState::Unlocked);
    assert_eq!(RubyGvlState::cached(&cache), None);
    // The thread has taken the lock in the meantime: the next lookup sees it.
    assert_eq!(classify(&mut cache, 1, 1, &mut asked), RubyGvlState::Locked);
    assert_eq!(asked, 2);
}

#[test]
fn repeated_classification_gives_the_same_result() {
    for (has_gvl, native) in [(1, 1), (0, 1), (0, 0), (1, 0)] {
        let mut cache = GvlStateCache::new();
        let mut asked = 0;
        let first = classify(&mut cache, has_gvl, native, &mut asked);
        let after_first = cache.last_observed();
        for _ in 0..3 {
            assert_eq!(classify(&mut cache, has_gvl, native, &mut asked), first);
            assert_eq!(cache.last_observed(), after_first);
        }
        assert_eq!(after_first, Some(first));
    }
}

#[test]
fn sticky_states_ask_the_interpreter_once() {
    let mut cache = GvlStateCache::new();
    let mut asked = 0;
    for _ in 0..4 {
        classify(&mut cache, 1, 1, &mut asked);
    }
    assert_eq!(asked, 1);
}

#[test]
fn ok_passes_the_value_through_only_when_locked() {
    assert_eq!(RubyGvlState::Locked.ok(14), Ok(14));
    assert_eq!(
        RubyGvlState::Unlocked.ok(14),
        Err(RubyUnavailableError::GvlUnlocked)
    );
    assert_eq!(
        RubyGvlState::NonRubyThread.ok("x"),
        Err(RubyUnavailableError::NonRubyThread)
    );
}

#[test]
fn unchecked_handle_needs_no_lookup() {
    let _handle: RubyHandle = RubyHandle::get_unchecked(RubyGvlState::Locked);
}

#[test]
fn error_messages_are_fixed() {
    assert_eq!(
        RubyUnavailableError::NonRubyThread.message(),
        "Current thread is not a Ruby thread."
    );
    assert_eq!(RubyUnavailableError::GvlUnlocked.message(), "GVL is not locked.");
    assert_ne!(
        RubyUnavailableError::NonRubyThread.message(),
        RubyUnavailableError::GvlUnlocked.message()
    );
}

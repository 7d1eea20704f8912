use scoped_static::{Mode, Reaction, Scoped, ScopedGuard, Verdict};

struct NonCopy(f32);

impl NonCopy {
    pub fn new() -> Self {
        NonCopy(1.0)
    }

    pub fn access_value(&self) {
        assert_eq!(self.0, 1.0, "If these values are not equal it signals UB");
    }
}

#[test]
fn scoped_valid() {
    let concrete_value = Box::new(NonCopy::new());
    let ref_value = &concrete_value;
    let guard = ScopedGuard::new(ref_value);
    let lifted = guard.lift();
    lifted.access_value();
    std::mem::drop(lifted);
    assert_eq!(guard.verdict(), Verdict::Clean);
    std::mem::drop(guard);
}

#[test]
fn scoped_dangling() {
    let concrete_value = Box::new(NonCopy::new());
    let ref_value = &concrete_value;
    let guard = &mut ScopedGuard::new(ref_value);
    let lifted = guard.lift();
    lifted.access_value();
    assert_eq!(guard.verdict(), Verdict::Violation);
    #[allow(dropping_references)]
    std::mem::drop(guard);
}

#[test]
fn scoped_undefined_behavior() {
    let concrete_value = Box::new(NonCopy::new());
    let ref_value = &concrete_value;
    let guard = &mut ScopedGuard::new(ref_value);
    let lifted = guard.lift();
    lifted.access_value();
    #[allow(forgetting_references)]
    std::mem::forget(guard);
    lifted.access_value();
}

#[test]
fn shared_handle_reads_the_guarded_value() {
    let value = 1.0_f64;
    let guard = ScopedGuard::new(&value);
    let handle = guard.lift();
    assert_eq!(*handle + 1.0, 2.0);
    assert_eq!(*guard, 1.0);
    let copy = handle.clone();
    assert_eq!(*copy, 1.0);
    drop(handle);
    drop(copy);
    assert_eq!(guard.verdict(), Verdict::Clean);
}

#[test]
fn shared_guard_without_handles_is_clean() {
    let value = 7_u32;
    let guard = ScopedGuard::new(&value);
    assert_eq!(guard.outstanding(), 0);
    assert_eq!(guard.verdict(), Verdict::Clean);
}

#[test]
fn shared_guard_reports_an_outstanding_handle() {
    let value = 7_u32;
    let guard = ScopedGuard::new(&value);
    let handle = guard.lift();
    assert_eq!(guard.verdict(), Verdict::Violation);
    assert_eq!(guard.verdict().reaction(false), Reaction::Terminate);
    assert_eq!(guard.verdict().reaction(true), Reaction::Unwind);
    drop(handle);
    assert_eq!(guard.verdict(), Verdict::Clean);
    assert_eq!(guard.verdict().reaction(false), Reaction::Proceed);
}

#[test]
fn shared_guard_follows_the_mode_of_the_build() {
    let value = 7_u32;
    let release = ScopedGuard::with_mode(&value, Mode::select(false, false));
    let handle = release.lift();
    assert_eq!(release.verdict().reaction(false), Reaction::Proceed);
    drop(handle);
    let checked = ScopedGuard::with_mode(&value, Mode::select(false, true));
    let handle = checked.lift();
    assert_eq!(checked.verdict().reaction(false), Reaction::Terminate);
    drop(handle);
    let debug = ScopedGuard::with_mode(&value, Mode::select(true, false));
    let handle = debug.lift();
    assert_eq!(debug.verdict().reaction(false), Reaction::Terminate);
    drop(handle);
}

#[test]
fn shared_count_follows_lifts_duplicates_and_drops() {
    let value = String::from("scoped");
    let guard = ScopedGuard::new(&value);
    let first = guard.lift();
    assert_eq!(guard.outstanding(), 1);
    let second = guard.lift();
    let third = second.clone();
    assert_eq!(guard.outstanding(), 3);
    drop(second);
    assert_eq!(guard.outstanding(), 2);
    assert_eq!(guard.verdict(), Verdict::Violation);
    drop(first);
    drop(third);
    assert_eq!(guard.outstanding(), 0);
    assert_eq!(guard.verdict(), Verdict::Clean);
}

#[test]
fn shared_guard_is_clean_after_many_handles() {
    let value = 3_i64;
    let guard = ScopedGuard::new(&value);
    let mut handles: Vec<Scoped<'_, i64>> = Vec::new();
    for _ in 0..100 {
        handles.push(guard.lift());
    }
    assert_eq!(guard.outstanding(), 100);
    assert_eq!(guard.verdict(), Verdict::Violation);
    handles.clear();
    assert_eq!(guard.outstanding(), 0);
    assert_eq!(guard.verdict(), Verdict::Clean);
}

#[test]
fn shared_unchecked_guard_never_reports() {
    let value = 7_u32;
    let guard = ScopedGuard::with_mode(&value, Mode::Unchecked);
    let handle = guard.lift();
    let copy = handle.clone();
    assert_eq!(*handle, 7);
    assert_eq!(*copy, 7);
    assert_eq!(*guard, 7);
    assert_eq!(guard.outstanding(), 0);
    assert_eq!(guard.verdict(), Verdict::Clean);
    drop(handle);
    drop(copy);
    assert_eq!(guard.outstanding(), 0);
    assert_eq!(guard.verdict(), Verdict::Clean);
}

#[test]
fn shared_leaked_handle_stays_counted() {
    let value = 3_i64;
    let guard = ScopedGuard::new(&value);
    let handle = guard.lift();
    std::mem::forget(handle);
    assert_eq!(guard.outstanding(), 1);
    assert_eq!(guard.verdict(), Verdict::Violation);
}

#[test]
fn shared_duplicate_counts_as_one_handle() {
    let value = 9_i32;
    let guard = ScopedGuard::new(&value);
    let lifted = guard.lift();
    let duplicate = lifted.clone();
    assert_eq!(guard.outstanding(), 2);
    drop(lifted);
    assert_eq!(guard.outstanding(), 1);
    assert_eq!(guard.verdict(), Verdict::Violation);
    drop(duplicate);
    assert_eq!(guard.outstanding(), 0);
    assert_eq!(guard.verdict(), Verdict::Clean);
}

#[test]
fn shared_guards_and_handles_compare_by_value() {
    let left = 4_u8;
    let right = 4_u8;
    let other = 5_u8;
    let guard = ScopedGuard::new(&left);
    let same = ScopedGuard::new(&right);
    let different = ScopedGuard::new(&other);
    assert!(guard == same);
    assert!(guard != different);
    assert!(guard < different);
    assert!(guard.lift() == same.lift());
    assert!(guard.lift() < different.lift());
}

#[test]
fn shared_guard_made_with_checked_mode_reports() {
    let value = 7_u32;
    let guard = ScopedGuard::with_mode(&value, Mode::Checked);
    let handle = guard.lift();
    assert_eq!(guard.verdict(), Verdict::Violation);
    drop(handle);
}

#[test]
fn shared_handle_outlives_a_moved_guard() {
    let value = 11_u8;
    let guard = ScopedGuard::new(&value);
    let handle = guard.lift();
    let moved = Box::new(guard);
    assert_eq!(moved.outstanding(), 1);
    assert_eq!(*handle, 11);
    drop(moved);
    assert_eq!(*handle, 11);
}

#[test]
fn shared_handle_moved_into_a_finished_task_is_released() {
    let value = 5_u64;
    let guard = ScopedGuard::new(&value);
    let handle = guard.lift();
    let task = move || {
        let held = handle;
        *held + 1
    };
    assert_eq!(guard.verdict(), Verdict::Violation);
    assert_eq!(task(), 6);
    assert_eq!(guard.verdict(), Verdict::Clean);
}

#[test]
fn shared_handle_moved_into_a_pending_task_is_reported() {
    let value = 5_u64;
    let guard = ScopedGuard::new(&value);
    let handle = guard.lift();
    let task = move || {
        let held = handle;
        *held + 1
    };
    assert_eq!(guard.verdict(), Verdict::Violation);
    drop(guard);
    assert_eq!(task(), 6);
}

#[test]
fn shared_leaked_guard_is_never_judged() {
    let value = 1.0_f64;
    let guard = ScopedGuard::new(&value);
    let handle = guard.lift();
    std::mem::forget(guard);
    assert_eq!(*handle + 1.0, 2.0);
}

#[test]
fn shared_duplicate_equals_its_source() {
    let value = 4_u8;
    let guard = ScopedGuard::new(&value);
    let handle = guard.lift();
    let duplicate = handle.clone();
    assert!(duplicate == handle);
    let bare = ScopedGuard::with_mode(&value, Mode::Unchecked);
    let plain = bare.lift();
    assert!(plain.clone() == plain);
    assert!(plain != handle);
}

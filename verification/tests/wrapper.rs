use std::rc::Rc;

use compio_send_wrapper::{invalid_deref, invalid_drop, invalid_poll, SendWrapper, ThreadId};

fn owner() -> ThreadId {
    ThreadId::new(1)
}

fn stranger() -> ThreadId {
    ThreadId::new(2)
}

/// The debug form of a wrapper as thread `current` sees it: the value on
/// the owner thread, `"<invalid>"` elsewhere.
struct Seen<'a, T>(&'a SendWrapper<T>, ThreadId);

impl<T: std::fmt::Debug> std::fmt::Debug for Seen<'_, T> {
    fn fmt(&self, f: &mut std::fmt::Formatter<'_>) -> std::fmt::Result {
        let mut f = f.debug_struct("SendWrapper");
        if let Some(data) = self.0.get(self.1) {
            f.field("data", data);
        } else {
            f.field("data", &"<invalid>");
        }
        f.field("thread_id", &self.0.thread_id()).finish()
    }
}

#[test]
fn test_take() {
    let w = SendWrapper::new(Rc::new(42), owner());
    let inner: Rc<usize> = w.take(owner()).unwrap();
    assert_eq!(42, *inner);
}

#[test]
fn test_clone() {
    let w1 = SendWrapper::new(Rc::new(42), owner());
    let w2 = w1.clone(owner());
    assert_eq!(
        format!("{:?}", Seen(&w1, owner())),
        format!("{:?}", Seen(&w2, owner()))
    );
}

#[test]
fn owner_and_others_see_different_debug_forms() {
    let w = SendWrapper::new(Rc::new(42), owner());
    assert_eq!(w.thread_id(), owner());
    let mine = format!("{:?}", Seen(&w, owner()));
    assert!(mine.contains("data: 42,"));
    let theirs = format!("{:?}", Seen(&w, stranger()));
    assert!(theirs.contains("data: \"<invalid>\","));
    assert!(theirs.contains("thread_id: ThreadId(1)"));
}

#[test]
fn thread_id_keeps_its_number() {
    assert_eq!(ThreadId::new(7).as_u64(), 7);
    assert_eq!(ThreadId::new(7), ThreadId::new(7));
    assert_ne!(ThreadId::new(7), ThreadId::new(8));
}

#[test]
fn valid_only_on_the_creating_thread() {
    let w = SendWrapper::new(Rc::new(42), owner());
    assert!(w.valid(owner()));
    assert!(!w.valid(stranger()));
}

#[test]
fn get_on_owner_and_stranger() {
    let w = SendWrapper::new(Rc::new(42), owner());
    assert_eq!(w.get(owner()).map(|v| **v), Some(42));
    assert!(w.get(stranger()).is_none());
}

#[test]
fn get_mut_write_then_read() {
    let mut w = SendWrapper::new(5u32, owner());
    *w.get_mut(owner()).unwrap() = 9;
    assert_eq!(w.get(owner()), Some(&9));
    assert!(w.get_mut(stranger()).is_none());
    assert_eq!(w.get(owner()), Some(&9));
    assert!(w.valid(owner()));
}

#[test]
fn unchecked_access_ignores_the_thread() {
    let mut w = SendWrapper::new(String::from("a"), owner());
    assert_eq!(w.get_unchecked(), "a");
    w.get_unchecked_mut().push('b');
    assert_eq!(w.get_unchecked(), "ab");
    assert_eq!(w.take_unchecked(), "ab");
}

#[test]
fn tracker_shares_the_owner() {
    let w = SendWrapper::new(Rc::new(42), owner());
    let t = w.tracker();
    assert!(t.valid(owner()));
    assert!(!t.valid(stranger()));
    assert_eq!(t.get(owner()), Some(&()));
}

#[test]
fn clone_is_owned_by_the_same_thread() {
    let w1 = SendWrapper::new(vec![1, 2, 3], owner());
    let w2 = w1.clone(owner());
    assert!(w2.valid(owner()));
    assert!(!w2.valid(stranger()));
    assert_eq!(w2.take(owner()), Some(vec![1, 2, 3]));
}

#[test]
fn drop_allowed_cases() {
    let w = SendWrapper::new(Rc::new(42), owner());
    assert!(w.drop_allowed(owner(), true));
    assert!(w.drop_allowed(owner(), false));
    assert!(w.drop_allowed(stranger(), false));
    assert!(!w.drop_allowed(stranger(), true));
}

#[test]
fn drop_check_asks_about_drop_glue() {
    let plain = SendWrapper::new(42u64, owner());
    assert_eq!(plain.drop_check(owner()), (true, false));
    assert_eq!(plain.drop_check(stranger()), (true, false));
    let counted = SendWrapper::new(Rc::new(42), owner());
    assert_eq!(counted.drop_check(owner()), (true, true));
    assert_eq!(counted.drop_check(stranger()), (false, true));
}

#[test]
fn refusal_messages() {
    assert_eq!(
        invalid_deref(),
        "Dereferenced SendWrapper<T> variable from a thread different to the one it has been created with."
    );
    assert_eq!(
        invalid_poll(),
        "Polling SendWrapper<T> variable from a thread different to the one it has been created with."
    );
    assert_eq!(
        invalid_drop(false),
        Some("Dropped SendWrapper<T> variable from a thread different to the one it has been created with.")
    );
    assert_eq!(invalid_drop(true), None);
}

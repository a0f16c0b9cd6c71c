//! Reference-counted document scroll locking: the document is locked after
//! the first lock is acquired and restored after the last one is released.
//! Locking and unlocking are deferred (to a zero-delay timer) so that rapid
//! acquire/release cycles are batched.

use vstd::prelude::*;

use crate::utils::text::{contains, contains_text, same_text};

verus! {

/// A reference-counted scroll locker. `R` is the action that restores the
/// document's styles from before the lock.
pub struct ScrollLocker<R> {
    lock_count: i32,
    restore: Option<R>,
}

impl<R> ScrollLocker<R> {
    /// The number of locks held.
    pub closed spec fn count(&self) -> int {
        self.lock_count as int
    }

    /// The restore action of the current document lock, if the document is
    /// locked.
    pub closed spec fn restore_action(&self) -> Option<R> {
        self.restore
    }

    /// A locker holding no lock.
    pub fn new() -> (l: Self)
        ensures
            l.count() == 0,
            l.restore_action() is None,
    {
        ScrollLocker { lock_count: 0, restore: None }
    }

    /// The number of locks held.
    pub fn lock_count(&self) -> (n: i32)
        ensures
            n == self.count(),
    {
        self.lock_count
    }

    /// Whether the document is currently locked (a restore action is held).
    pub fn has_restore(&self) -> (r: bool)
        ensures
            r == self.restore_action() is Some,
    {
        self.restore.is_some()
    }

    /// Acquires a lock. Returns the guard that releases it, and whether the
    /// caller must schedule the deferred document lock: only for the first
    /// lock, when no document lock is in place.
    pub fn acquire(&mut self) -> (r: (ScrollLockGuard, bool))
        requires
            old(self).count() < i32::MAX,
        ensures
            final(self).count() == old(self).count() + 1,
            final(self).restore_action() == old(self).restore_action(),
            r.0.is_active(),
            r.1 == (final(self).count() == 1 && old(self).restore_action() is None),
    {
        self.lock_count = self.lock_count + 1;
        let must_lock = self.lock_count == 1 && self.restore.is_none();
        (ScrollLockGuard { active: true }, must_lock)
    }

    /// When the deferred lock comes due: whether the document must be
    /// locked now. Not when every lock was released in the meantime, nor
    /// when the document is already locked.
    pub fn lock_due(&self) -> (r: bool)
        ensures
            r == (self.count() != 0 && self.restore_action() is None),
    {
        self.lock_count != 0 && self.restore.is_none()
    }

    /// Records the action that undoes the document lock just applied.
    pub fn set_restore(&mut self, restore: R)
        ensures
            final(self).count() == old(self).count(),
            final(self).restore_action() == Some(restore),
    {
        self.restore = Some(restore);
    }

    /// When the deferred unlock comes due: if no lock is held (none was
    /// acquired in the meantime) and the document is locked, hands back the
    /// restore action to run and forgets it; otherwise nothing changes.
    pub fn unlock_due(&mut self) -> (restore: Option<R>)
        ensures
            final(self).count() == old(self).count(),
            old(self).count() == 0 && old(self).restore_action() is Some ==> restore == old(self).restore_action() && final(self).restore_action() is None,
            !(old(self).count() == 0 && old(self).restore_action() is Some) ==> restore is None
                && final(self).restore_action() == old(self).restore_action(),
    {
        if self.lock_count == 0 && self.restore.is_some() {
            let mut taken: Option<R> = None;
            std::mem::swap(&mut taken, &mut self.restore);
            taken
        } else {
            None
        }
    }
}

impl<R> Default for ScrollLocker<R> {
    /// A locker holding no lock.
    fn default() -> (l: Self)
        ensures
            l.count() == 0,
            l.restore_action() is None,
    {
        Self::new()
    }
}

/// A guard for one acquired lock; it releases the lock once.
#[derive(Debug, PartialEq, Eq, Structural)]
pub struct ScrollLockGuard {
    active: bool,
}

impl ScrollLockGuard {
    /// Whether this guard still holds its lock.
    pub closed spec fn is_active(&self) -> bool {
        self.active
    }

    /// Whether this guard still holds its lock.
    pub fn holds_lock(&self) -> (r: bool)
        ensures
            r == self.is_active(),
    {
        self.active
    }

    /// Explicitly release the scroll lock. Returns whether the caller must
    /// schedule the deferred unlock: when this was the last lock and the
    /// document is locked.
    pub fn release<R>(self, locker: &mut ScrollLocker<R>) -> (must_unlock: bool)
        requires
            self.is_active() ==> old(locker).count() > 0,
        ensures
            self.is_active() ==> final(locker).count() == old(locker).count() - 1,
            !self.is_active() ==> final(locker).count() == old(locker).count(),
            final(locker).restore_action() == old(locker).restore_action(),
            must_unlock == (self.is_active() && final(locker).count() == 0 && old(locker).restore_action() is Some),
    {
        let mut guard = self;
        guard.do_release(locker)
    }

    /// Releases the lock if this guard still holds it; a second release does
    /// nothing. Returns whether the caller must schedule the deferred unlock:
    /// when this was the last lock and the document is locked.
    pub fn do_release<R>(&mut self, locker: &mut ScrollLocker<R>) -> (must_unlock: bool)
        requires
            old(self).is_active() ==> old(locker).count() > 0,
        ensures
            !final(self).is_active(),
            old(self).is_active() ==> final(locker).count() == old(locker).count() - 1,
            !old(self).is_active() ==> final(locker).count() == old(locker).count(),
            final(locker).restore_action() == old(locker).restore_action(),
            must_unlock == (old(self).is_active() && final(locker).count() == 0 && old(locker).restore_action() is Some),
    {
        if !self.active {
            return false;
        }
        self.active = false;
        locker.lock_count = locker.lock_count - 1;
        locker.lock_count == 0 && locker.restore.is_some()
    }
}

/// Whether a computed `overflow` value makes an element scroll or clip.
pub open spec fn overflow_keyword(value: Seq<char>) -> bool {
    contains_text(value, "auto"@) || contains_text(value, "scroll"@) || contains_text(
        value,
        "overlay"@,
    ) || contains_text(value, "hidden"@) || contains_text(value, "clip"@)
}

/// Text placed before and after an occurrence keeps it an occurrence.
proof fn lemma_occurs_inside(pre: Seq<char>, p: Seq<char>, post: Seq<char>)
    ensures
        contains_text(pre + p + post, p),
{
    let s = pre + p + post;
    assert(s.subrange(pre.len() as int, (pre.len() + p.len()) as int) =~= p);
    assert(crate::utils::text::occurs_at(s, p, pre.len() as int));
}

/// A value is recognised as scrolling or clipping whenever one of `auto`,
/// `scroll`, `overlay`, `hidden` or `clip` occurs in it, at any position
/// and whatever surrounds it.
pub proof fn lemma_overflow_keyword_anywhere(pre: Seq<char>, post: Seq<char>)
    ensures
        overflow_keyword(pre + "auto"@ + post),
        overflow_keyword(pre + "scroll"@ + post),
        overflow_keyword(pre + "overlay"@ + post),
        overflow_keyword(pre + "hidden"@ + post),
        overflow_keyword(pre + "clip"@ + post),
{
    lemma_occurs_inside(pre, "auto"@, post);
    lemma_occurs_inside(pre, "scroll"@, post);
    lemma_occurs_inside(pre, "overlay"@, post);
    lemma_occurs_inside(pre, "hidden"@, post);
    lemma_occurs_inside(pre, "clip"@, post);
}

/// Adding text before or after a recognised value keeps it recognised.
pub proof fn lemma_overflow_keyword_extends(pre: Seq<char>, value: Seq<char>, post: Seq<char>)
    requires
        overflow_keyword(value),
    ensures
        overflow_keyword(pre + value + post),
{
    let s = pre + value + post;
    assert forall|p: Seq<char>| contains_text(value, p) implies contains_text(s, p) by {
        let i = choose|i: int| crate::utils::text::occurs_at(value, p, i);
        assert(s.subrange(pre.len() + i, pre.len() + i + p.len()) =~= value.subrange(
            i,
            i + p.len(),
        ));
        assert(crate::utils::text::occurs_at(s, p, pre.len() + i));
    }
}

/// Whether an `overflow` value names `auto`, `scroll`, `overlay`, `hidden`
/// or `clip`.
pub fn has_overflow_keyword(value: &str) -> (r: bool)
    ensures
        r == overflow_keyword(value@),
{
    contains(value, "auto") || contains(value, "scroll") || contains(value, "overlay") || contains(
        value,
        "hidden",
    ) || contains(value, "clip")
}

/// Whether an element with these computed styles is an overflow element:
/// its `overflow`, `overflow-y` and `overflow-x` values, read together,
/// scroll or clip, and its display is neither `inline` nor `contents`.
pub fn is_overflow_style(overflow: &str, overflow_y: &str, overflow_x: &str, display: &str) -> (r:
    bool)
    ensures
        r == (overflow_keyword(overflow@ + overflow_y@ + overflow_x@) && display@ != "inline"@
            && display@ != "contents"@),
{
    let mut combined = String::from_str(overflow);
    combined.append(overflow_y);
    combined.append(overflow_x);
    has_overflow_keyword(combined.as_str()) && !same_text(display, "inline") && !same_text(
        display,
        "contents",
    )
}

/// Whether the site already hides overflow on `<html>` (`hidden` or `clip`),
/// in which case locking leaves the document as it is.
pub fn html_overflow_already_hidden(overflow_y: &str) -> (r: bool)
    ensures
        r == (overflow_y@ == "hidden"@ || overflow_y@ == "clip"@),
{
    same_text(overflow_y, "hidden") || same_text(overflow_y, "clip")
}

/// How the document lock is applied.
#[derive(Clone, Copy, Debug, PartialEq, Eq, Structural)]
pub enum LockMethod {
    /// The site already hides overflow on `<html>`: leave the document as
    /// it is.
    Keep,
    /// Scrollbars overlay the content: hide overflow on the scroll
    /// container.
    Overlay,
    /// Scrollbars take layout space: keep a stable gutter and size the body
    /// to compensate for them.
    Inset,
}

/// The lock method for a document whose `<html>` has the computed
/// `overflow-y` value `html_overflow_y`: `Keep` when that value already hides
/// overflow, else `Overlay` on iOS or when the scrollbars are not inset, else
/// `Inset`.
pub fn lock_method(html_overflow_y: &str, is_ios: bool, has_inset_scrollbars: bool) -> (m:
    LockMethod)
    ensures
        m == if html_overflow_y@ == "hidden"@ || html_overflow_y@ == "clip"@ {
            LockMethod::Keep
        } else if is_ios || !has_inset_scrollbars {
            LockMethod::Overlay
        } else {
            LockMethod::Inset
        },
{
    if html_overflow_already_hidden(html_overflow_y) {
        LockMethod::Keep
    } else if is_ios || !has_inset_scrollbars {
        LockMethod::Overlay
    } else {
        LockMethod::Inset
    }
}

/// The body extent while an inset lock holds: the full viewport extent, or,
/// when margins and scrollbar take `offset_px` pixels, a `calc` that
/// subtracts them.
pub open spec fn locked_extent_text(full: Seq<char>, offset_px: Option<Seq<char>>) -> Seq<char> {
    match offset_px {
        Some(o) => "calc("@ + full + " - "@ + o + "px)"@,
        None => full,
    }
}

/// The CSS value of the body's height (`full` = `100dvh`) or width (`full`
/// = `100vw`) under an inset lock, given the pixels to subtract, if any.
pub fn locked_extent(full: &str, offset_px: Option<&str>) -> (r: String)
    ensures
        r@ == locked_extent_text(
            full@,
            match offset_px {
                Some(o) => Some(o@),
                None => None,
            },
        ),
{
    match offset_px {
        Some(o) => {
            let mut r = String::from_str("calc(");
            r.append(full);
            r.append(" - ");
            r.append(o);
            r.append("px)");
            r
        },
        None => String::from_str(full),
    }
}

} // verus!

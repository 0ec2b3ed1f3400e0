//! The bottom-center strip that carries the act/scene pill and borrows it for
//! transient messages. Every transient saves the pill's text when the strip is
//! first borrowed and gives it back when the newest transient clears; a
//! generation counter makes the expiry of a superseded transient a no-op, so
//! the latest one always gets its full time and owns the restore. The timers
//! themselves are the caller's: it schedules `expire` with the generation that
//! `show` returned.

use vstd::prelude::*;

verus! {

/// The strip as the contracts see it.
pub struct ToastView {
    pub text: Seq<char>,
    pub visible: bool,
    /// The act/scene pill is toggled on.
    pub persistent: bool,
    /// A transient has borrowed the strip.
    pub borrowed: bool,
    /// The pill text to give back when the borrow ends (none when the pill
    /// was off).
    pub saved: Option<Seq<char>>,
    pub gen: u64,
}

/// The strip's state.
pub struct ChapterToast {
    pub text: String,
    pub visible: bool,
    pub persistent: bool,
    pub borrowed: bool,
    pub saved: Option<String>,
    pub gen: u64,
}

impl View for ChapterToast {
    type V = ToastView;

    open spec fn view(&self) -> ToastView {
        ToastView {
            text: self.text@,
            visible: self.visible,
            persistent: self.persistent,
            borrowed: self.borrowed,
            saved: match self.saved {
                Some(t) => Some(t@),
                None => None,
            },
            gen: self.gen,
        }
    }
}

/// The next generation (wrapping).
pub open spec fn next_gen(g: u64) -> u64 {
    if g == u64::MAX { 0 } else { (g + 1) as u64 }
}

/// Beginning a borrow: on the first borrow of a chain, save the pill's text
/// if the pill is on; a strip already borrowed keeps what it saved.
pub open spec fn borrow_begun(v: ToastView) -> ToastView {
    if v.borrowed {
        v
    } else {
        ToastView { saved: if v.persistent { Some(v.text) } else { None }, borrowed: true, ..v }
    }
}

/// Ending the borrow: give the saved pill text back, or hide the strip when
/// nothing was saved.
pub open spec fn restored(v: ToastView) -> ToastView {
    match v.saved {
        Some(t) => ToastView { text: t, visible: true, borrowed: false, saved: None, ..v },
        None => ToastView { visible: false, borrowed: false, ..v },
    }
}

/// A transient (timed, held, or a spinner) shows `text`: a new generation,
/// the borrow begun, the text up.
pub open spec fn toast_shown(v: ToastView, text: Seq<char>) -> ToastView {
    let b = borrow_begun(ToastView { gen: next_gen(v.gen), ..v });
    ToastView { text, visible: true, ..b }
}

/// The expiry (or release) of the transient of generation `g`: it restores
/// the strip only while it is still the newest.
pub open spec fn toast_expired(v: ToastView, g: u64) -> ToastView {
    if v.gen == g { restored(v) } else { v }
}

/// An explicit dismissal: a new generation (so pending expiries become
/// no-ops), then the restore.
pub open spec fn toast_dismissed(v: ToastView) -> ToastView {
    restored(ToastView { gen: next_gen(v.gen), ..v })
}

/// A message shown on another label over the strip: the strip is hidden,
/// the borrow begun, a new generation taken.
pub open spec fn toast_covered(v: ToastView) -> ToastView {
    let b = borrow_begun(ToastView { visible: false, ..v });
    ToastView { gen: next_gen(b.gen), ..b }
}

impl ChapterToast {
    /// A fresh strip: hidden, not borrowed, the pill on or off.
    pub fn new(persistent: bool) -> (r: Self)
        ensures
            r@.text == Seq::<char>::empty(),
            !r@.visible,
            r@.persistent == persistent,
            !r@.borrowed,
            r@.saved is None,
            r@.gen == 0,
    {
        ChapterToast { text: String::new(), visible: false, persistent, borrowed: false, saved: None, gen: 0 }
    }

    fn bump(&mut self)
        ensures
            final(self)@ == (ToastView { gen: next_gen(old(self)@.gen), ..old(self)@ }),
    {
        self.gen = if self.gen == u64::MAX { 0 } else { self.gen + 1 };
    }

    fn begin_borrow(&mut self)
        ensures
            final(self)@ == borrow_begun(old(self)@),
    {
        if !self.borrowed {
            self.saved = if self.persistent { Some(self.text.clone()) } else { None };
            self.borrowed = true;
        }
    }

    fn restore(&mut self)
        ensures
            final(self)@ == restored(old(self)@),
    {
        self.borrowed = false;
        match self.saved.take() {
            Some(t) => {
                self.text = t;
                self.visible = true;
            },
            None => {
                self.visible = false;
            },
        }
    }

    /// Shows a transient `text` (see `toast_shown`) and returns its
    /// generation, which a timed transient's expiry (or a held one's
    /// release) passes back to `expire`.
    pub fn show(&mut self, text: &str) -> (gen: u64)
        ensures
            final(self)@ == toast_shown(old(self)@, text@),
            gen == final(self)@.gen,
    {
        self.bump();
        self.begin_borrow();
        self.text = text.to_owned();
        self.visible = true;
        self.gen
    }

    /// The expiry or release of the transient of generation `gen` (see
    /// `toast_expired`).
    pub fn expire(&mut self, gen: u64)
        ensures
            final(self)@ == toast_expired(old(self)@, gen),
    {
        if self.gen == gen {
            self.restore();
        }
    }

    /// Dismisses the strip now (see `toast_dismissed`).
    pub fn dismiss(&mut self)
        ensures
            final(self)@ == toast_dismissed(old(self)@),
    {
        self.bump();
        self.restore();
    }

    /// A message on another label is shown over the strip (see
    /// `toast_covered`); returns the generation whose expiry restores it.
    pub fn cover(&mut self) -> (gen: u64)
        ensures
            final(self)@ == toast_covered(old(self)@),
            gen == final(self)@.gen,
    {
        self.visible = false;
        self.begin_borrow();
        self.bump();
        self.gen
    }
}

/// The expiry of a superseded transient changes nothing.
pub proof fn law_stale_expiry_is_inert(v: ToastView, g: u64)
    requires
        g != v.gen,
    ensures
        toast_expired(v, g) == v,
{
}

/// A chain of two transients over the pill: the first one's expiry is a
/// no-op once the second is up, and the second one's expiry gives back the
/// pill as it was before the chain (its text, shown, when the pill was on;
/// the strip hidden when it was off), ending the borrow.
pub proof fn law_toast_chain_restores_the_pill(v: ToastView, t1: Seq<char>, t2: Seq<char>)
    requires
        !v.borrowed,
    ensures
        ({
            let a = toast_shown(v, t1);
            let b = toast_shown(a, t2);
            &&& toast_expired(b, a.gen) == b
            &&& !toast_expired(b, b.gen).borrowed
            &&& toast_expired(b, b.gen).visible == v.persistent
            &&& v.persistent ==> toast_expired(b, b.gen).text == v.text
            &&& toast_expired(b, b.gen).saved is None
        }),
{
}

/// A single transient over a free strip: its expiry gives the pill back as
/// it was.
pub proof fn law_transient_restores_the_pill(v: ToastView, t: Seq<char>)
    requires
        !v.borrowed,
        v.saved is None,
    ensures
        ({
            let e = toast_expired(toast_shown(v, t), toast_shown(v, t).gen);
            &&& !e.borrowed
            &&& e.visible == v.persistent
            &&& v.persistent ==> e.text == v.text
            &&& e.persistent == v.persistent
        }),
{
}

} // verus!

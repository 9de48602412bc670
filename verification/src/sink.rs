//! The output sink: a text buffer, optionally bounded, that carries the
//! rendering mode flags.
use vstd::prelude::*;

verus! {

/// Why a rendering stopped.
#[derive(Debug, Clone, Copy, PartialEq, Eq)]
pub enum RenderError {
    /// The sink has no room for the text that was to be written.
    SinkFull,
}

/// What a sink holds, as a mathematical value.
pub struct SinkState {
    /// The characters written so far.
    pub text: Seq<char>,
    /// How many more characters the sink takes; `None` when it is unbounded.
    pub room: Option<nat>,
    /// Whether bound lists of type parameters are left out.
    pub omit_verbose_bounds: bool,
    /// Whether a type parameter is taken to be `Sized` unless it says otherwise.
    pub implicit_sized_default: bool,
}

impl SinkState {
    /// Whether all of `t` can still be written.
    pub closed spec fn fits(self, t: Seq<char>) -> bool {
        match self.room {
            None => true,
            Some(n) => t.len() <= n,
        }
    }

    /// What an attempt to write `t` returns: failure exactly when `t` does not fit.
    pub open spec fn result(self, t: Seq<char>) -> Result<(), RenderError> {
        if self.fits(t) {
            Ok(())
        } else {
            Err(RenderError::SinkFull)
        }
    }

    /// The state after an attempt to write `t`: all of `t` is appended when it
    /// fits, else as much of its beginning as there is room for.
    pub closed spec fn write(self, t: Seq<char>) -> SinkState {
        match self.room {
            None => SinkState { text: self.text + t, ..self },
            Some(n) => if t.len() <= n {
                SinkState { text: self.text + t, room: Some((n - t.len()) as nat), ..self }
            } else {
                SinkState { text: self.text + t.take(n as int), room: Some(0nat), ..self }
            },
        }
    }

    /// What `fits` and `write` are, written out.
    pub proof fn lemma_write(self, t: Seq<char>)
        ensures
            self.fits(t) <==> (self.room matches Some(n) ==> t.len() <= n),
            self.write(t).omit_verbose_bounds == self.omit_verbose_bounds,
            self.write(t).implicit_sized_default == self.implicit_sized_default,
            self.fits(t) ==> self.write(t).text == self.text + t,
            self.room matches Some(n) ==> {
                &&& self.fits(t) ==> self.write(t).room == Some((n - t.len()) as nat)
                &&& !self.fits(t) ==> self.write(t).text == self.text + t.take(n as int)
                &&& !self.fits(t) ==> self.write(t).room == Some(0nat)
            },
            self.room is None ==> self.write(t).room is None,
    {
    }
}

/// Writing `a + b` is writing `a` and then, if `a` fitted, writing `b`.
pub broadcast proof fn lemma_write_concat(s: SinkState, a: Seq<char>, b: Seq<char>)
    ensures
        #[trigger] s.write(a + b) == (if s.fits(a) {
            s.write(a).write(b)
        } else {
            s.write(a)
        }),
        s.fits(a + b) == (s.fits(a) && s.write(a).fits(b)),
{
    match s.room {
        None => {
            assert(s.text + (a + b) =~= (s.text + a) + b);
        },
        Some(n) => {
            if a.len() <= n {
                if (a + b).len() <= n {
                    assert(s.text + (a + b) =~= (s.text + a) + b);
                } else {
                    assert(s.text + (a + b).take(n as int) =~= (s.text + a) + b.take(n - a.len()));
                }
            } else {
                assert((a + b).take(n as int) =~= a.take(n as int));
            }
        },
    }
}

/// Writing nothing changes nothing, and always fits.
pub broadcast proof fn lemma_write_empty(s: SinkState)
    ensures
        #[trigger] s.write(Seq::<char>::empty()) == s,
        s.fits(Seq::<char>::empty()),
{
    assert(s.text + Seq::<char>::empty() =~= s.text);
}

/// Writing leaves the mode flags as they are.
pub broadcast proof fn lemma_write_keeps_flags(s: SinkState, t: Seq<char>)
    ensures
        (#[trigger] s.write(t)).omit_verbose_bounds == s.omit_verbose_bounds,
        s.write(t).implicit_sized_default == s.implicit_sized_default,
{
}

pub broadcast group group_sink {
    lemma_write_concat,
    lemma_write_empty,
    lemma_write_keeps_flags,
}

/// A text buffer that renderers append to.
pub struct Sink {
    buf: String,
    room: Option<usize>,
    omit_verbose_bounds: bool,
    implicit_sized_default: bool,
}

impl View for Sink {
    type V = SinkState;

    closed spec fn view(&self) -> SinkState {
        SinkState {
            text: self.buf@,
            room: match self.room {
                None => None,
                Some(n) => Some(n as nat),
            },
            omit_verbose_bounds: self.omit_verbose_bounds,
            implicit_sized_default: self.implicit_sized_default,
        }
    }
}

impl Sink {
    /// An empty sink without a bound.
    pub fn new() -> (s: Sink)
        ensures
            s@ == (SinkState {
                text: Seq::empty(),
                room: None,
                omit_verbose_bounds: false,
                implicit_sized_default: true,
            }),
    {
        Sink { buf: String::new(), room: None, omit_verbose_bounds: false, implicit_sized_default: true }
    }

    /// An empty sink that takes at most `limit` characters.
    pub fn bounded(limit: usize) -> (s: Sink)
        ensures
            s@ == (SinkState {
                text: Seq::empty(),
                room: Some(limit as nat),
                omit_verbose_bounds: false,
                implicit_sized_default: true,
            }),
    {
        Sink {
            buf: String::new(),
            room: Some(limit),
            omit_verbose_bounds: false,
            implicit_sized_default: true,
        }
    }

    /// Sets whether bound lists of type parameters are left out.
    pub fn set_omit_verbose_bounds(&mut self, omit: bool)
        ensures
            final(self)@ == (SinkState { omit_verbose_bounds: omit, ..old(self)@ }),
    {
        self.omit_verbose_bounds = omit;
    }

    /// Sets whether a type parameter is taken to be `Sized` unless it says
    /// otherwise.
    pub fn set_implicit_sized_default(&mut self, implicit: bool)
        ensures
            final(self)@ == (SinkState { implicit_sized_default: implicit, ..old(self)@ }),
    {
        self.implicit_sized_default = implicit;
    }

    /// Whether bound lists of type parameters are left out.
    pub fn omit_verbose_bounds(&self) -> (r: bool)
        ensures
            r == self@.omit_verbose_bounds,
    {
        self.omit_verbose_bounds
    }

    /// Whether a type parameter is taken to be `Sized` unless it says otherwise.
    pub fn implicit_sized_default(&self) -> (r: bool)
        ensures
            r == self@.implicit_sized_default,
    {
        self.implicit_sized_default
    }

    /// How many more characters the sink takes, if it is bounded.
    pub fn remaining(&self) -> (r: Option<usize>)
        ensures
            match r {
                Some(n) => self@.room == Some(n as nat),
                None => self@.room is None,
            },
    {
        self.room
    }

    /// The text written so far.
    pub fn as_str(&self) -> (r: &str)
        ensures
            r@ == self@.text,
    {
        self.buf.as_str()
    }

    /// Gives up the sink for the text written to it.
    pub fn into_string(self) -> (r: String)
        ensures
            r@ == self@.text,
    {
        self.buf
    }

    /// Appends `s`, or as much of its beginning as fits.
    pub fn write_str(&mut self, s: &str) -> (r: Result<(), RenderError>)
        ensures
            final(self)@ == old(self)@.write(s@),
            r == old(self)@.result(s@),
    {
        match self.room {
            None => {
                self.buf.append(s);
                Ok(())
            },
            Some(room) => {
                let n: usize = s.unicode_len();
                if n <= room {
                    self.buf.append(s);
                    self.room = Some(room - n);
                    Ok(())
                } else {
                    let head = s.substring_char(0, room);
                    self.buf.append(head);
                    self.room = Some(0);
                    Err(RenderError::SinkFull)
                }
            },
        }
    }
}

} // verus!

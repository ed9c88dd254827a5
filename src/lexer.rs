use vstd::prelude::*;
use vstd::std_specs::cmp::PartialEqSpec;
use crate::span::{Span, WithSpan};

verus! {

/// A `logos::Lexer` over one source, seen only through the calls below.
///
/// `logos::Lexer<T, S>` requires `T: logos::Logos` in its own declaration,
/// and Verus cannot declare a type whose parameters carry a trait bound from
/// outside. So the lexer is held here behind closures whose types name no
/// such bound.
#[verifier::external_body]
#[verifier::reject_recursive_types(T)]
#[verifier::reject_recursive_types(S)]
struct Engine<'a, T, S> {
    token: Box<dyn Fn() -> T + 'a>,
    range: Box<dyn Fn() -> core::ops::Range<usize> + 'a>,
    advance: Box<dyn FnMut() + 'a>,
    source: core::marker::PhantomData<S>,
}

/// A logos lexer together with a model of it: the match it holds now, and
/// how many times it has been advanced. Only the trusted calls below make or
/// change one.
#[verifier::reject_recursive_types(T)]
#[verifier::reject_recursive_types(S)]
struct Cursor<'a, T, S> {
    engine: Engine<'a, T, S>,
    held: Ghost<WithSpan<T>>,
    advances: Ghost<nat>,
}

/// Relies on `logos::Logos::lexer`: builds a lexer over `source`, already
/// positioned at its first match, and not yet advanced. Before each match
/// logos moves the match's start up to its previous end, and it only ever
/// moves the end forward, so the range is never reversed.
#[verifier::external_body]
fn open_cursor<'a, T, S>(source: S) -> (r: Cursor<'a, T, S>)
    where
        T: logos::Logos + Copy + 'a,
        S: logos::Source<'a> + 'a,
    ensures
        r.held@.span.wf(),
        r.advances@ == 0,
{
    let lexer = std::rc::Rc::new(core::cell::RefCell::new(T::lexer(source)));
    let (a, b) = (lexer.clone(), lexer.clone());
    let engine = Engine {
        token: Box::new(move || a.borrow().token),
        range: Box::new(move || b.borrow().range()),
        advance: Box::new(move || lexer.borrow_mut().advance()),
        source: core::marker::PhantomData,
    };
    Cursor { engine, held: Ghost(arbitrary()), advances: Ghost(0) }
}

/// Relies on `logos::Logos::END`: the token value that marks the end of input.
#[verifier::external_body]
fn end_marker<T: logos::Logos>() -> T {
    T::END
}

/// Relies on the `token` field of `logos::Lexer`: the token of the current match.
#[verifier::external_body]
fn cursor_token<'a, T, S>(cursor: &Cursor<'a, T, S>) -> (r: T)
    ensures
        r == cursor.held@.item,
{
    (cursor.engine.token)()
}

/// Relies on `logos::Lexer::range`: the bytes of the current match.
#[verifier::external_body]
fn cursor_range<'a, T, S>(cursor: &Cursor<'a, T, S>) -> (r: Span)
    ensures
        r == cursor.held@.span,
{
    let range = (cursor.engine.range)();
    Span { start: range.start, end: range.end }
}

/// Relies on `logos::Lexer::advance`: moves the lexer to its next match,
/// whose range, as above, is never reversed.
#[verifier::external_body]
fn advance_cursor<'a, T, S>(cursor: &mut Cursor<'a, T, S>)
    ensures
        final(cursor).held@.span.wf(),
        final(cursor).advances@ == old(cursor).advances@ + 1,
{
    (cursor.engine.advance)()
}

/// Whether `token` is the end marker `end`, as far as `==` on `T` tells:
/// for a token type whose `==` is not described to Verus nothing is known.
pub open spec fn is_end_marker<T: PartialEq>(token: T, end: T) -> bool {
    T::obeys_eq_spec() && token.eq_spec(&end)
}

/// What a lexer whose current match is `head` may hold for its next step:
/// `head` itself, unless it is the end marker, or nothing, once it is. Where
/// `==` on `T` is known to Verus this fixes one of the two.
pub open spec fn holds<T: PartialEq>(current: Option<WithSpan<T>>, head: WithSpan<T>, end: T) -> bool {
    match current {
        Some(w) => w == head && !is_end_marker(head.item, end),
        None => T::obeys_eq_spec() ==> is_end_marker(head.item, end),
    }
}

/// The step's decision on the current match: nothing when `token` is the end
/// marker `end`, else the token with the span it was matched from.
pub fn match_or_end<T: PartialEq>(token: T, span: Span, end: &T) -> (r: Option<WithSpan<T>>)
    ensures
        holds(r, (WithSpan { item: token, span: span }), *end),
{
    if token == *end {
        None
    } else {
        Some(WithSpan::new(token, span))
    }
}

/// A lexer over a source `S` that yields each token `T` with the `Span` of
/// bytes it was matched from, until the token type's end marker comes up.
/// The end marker itself is never yielded.
#[verifier::reject_recursive_types(T)]
#[verifier::reject_recursive_types(S)]
pub struct SpannedLexer<'a, T: PartialEq, S> {
    cursor: Cursor<'a, T, S>,
    end: T,
    /// The match that the next step yields; `None` once the end marker came up.
    current: Option<WithSpan<T>>,
}

impl<'a, T: PartialEq, S> SpannedLexer<'a, T, S> {
    /// The match that the next step yields, or `None` when the lexer is
    /// exhausted.
    pub closed spec fn view(&self) -> Option<WithSpan<T>> {
        self.current
    }

    /// The end marker of the token type, read once when the lexer was made.
    pub closed spec fn end_token(&self) -> T {
        self.end
    }

    /// The match that the underlying logos lexer holds now.
    pub closed spec fn held(&self) -> WithSpan<T> {
        self.cursor.held@
    }

    /// How many times the underlying logos lexer has been advanced since it
    /// was made.
    pub closed spec fn advances(&self) -> nat {
        self.cursor.advances@
    }

    /// The logos lexer's current span is not reversed, and the lexer holds
    /// what that current match calls for.
    pub open spec fn wf(&self) -> bool {
        &&& self.held().span.wf()
        &&& holds(self@, self.held(), self.end_token())
    }
}

impl<'a, T, S> SpannedLexer<'a, T, S>
    where
        T: logos::Logos + Copy + PartialEq + 'a,
        S: logos::Source<'a> + 'a,
{
    /// Creates a lexer over `s`, holding the first match of `T`'s grammar in
    /// it, or exhausted from the start if that match is the end marker.
    pub fn new(s: S) -> (r: Self)
        ensures
            r.wf(),
            r.advances() == 0,
    {
        let cursor = open_cursor::<T, S>(s);
        let end = end_marker::<T>();
        let current = match_or_end(cursor_token(&cursor), cursor_range(&cursor), &end);
        SpannedLexer { cursor, end, current }
    }

    /// Yields the match the lexer holds and advances the logos lexer once, or
    /// returns `None`, for good and changing nothing, once the end marker has
    /// come up.
    pub fn next(&mut self) -> (r: Option<WithSpan<T>>)
        requires
            old(self).wf(),
        ensures
            r == old(self)@,
            match r {
                Some(w) => {
                    &&& w == old(self).held()
                    &&& w.span.wf()
                    &&& !is_end_marker(w.item, old(self).end_token())
                    &&& final(self).advances() == old(self).advances() + 1
                    &&& final(self).end_token() == old(self).end_token()
                },
                None => *final(self) == *old(self),
            },
            final(self).wf(),
    {
        match self.current {
            None => None,
            Some(w) => {
                advance_cursor(&mut self.cursor);
                let token = cursor_token(&self.cursor);
                let span = cursor_range(&self.cursor);
                self.current = match_or_end(token, span, &self.end);
                Some(w)
            }
        }
    }
}

/// The token of a match, without its span.
pub open spec fn item_of<T>(m: Option<WithSpan<T>>) -> Option<T> {
    match m {
        Some(w) => Some(w.item),
        None => None,
    }
}

/// A lexer over a source `S` that yields each token `T` until the token
/// type's end marker comes up. The end marker itself is never yielded.
///
/// It runs the same steps as `SpannedLexer` and drops the spans.
#[verifier::reject_recursive_types(T)]
#[verifier::reject_recursive_types(S)]
pub struct Lexer<'a, T: PartialEq, S> {
    spanned: SpannedLexer<'a, T, S>,
}

impl<'a, T: PartialEq, S> Lexer<'a, T, S> {
    /// The spanned lexer whose steps this one runs.
    pub closed spec fn spanned(&self) -> SpannedLexer<'a, T, S> {
        self.spanned
    }

    /// The token that the next step yields, or `None` when the lexer is
    /// exhausted.
    pub open spec fn view(&self) -> Option<T> {
        item_of(self.spanned()@)
    }

    /// The match that the underlying logos lexer holds now.
    pub open spec fn held(&self) -> WithSpan<T> {
        self.spanned().held()
    }

    /// How many times the underlying logos lexer has been advanced since it
    /// was made.
    pub open spec fn advances(&self) -> nat {
        self.spanned().advances()
    }

    /// The end marker of the token type, read once when the lexer was made.
    pub open spec fn end_token(&self) -> T {
        self.spanned().end_token()
    }

    /// The spanned lexer it runs is well formed.
    pub open spec fn wf(&self) -> bool {
        self.spanned().wf()
    }
}

impl<'a, T, S> Lexer<'a, T, S>
    where
        T: logos::Logos + Copy + PartialEq + 'a,
        S: logos::Source<'a> + 'a,
{
    /// Creates a lexer over `s`, holding the token of the first match of
    /// `T`'s grammar in it, or exhausted from the start if that match is the
    /// end marker.
    pub fn new(s: S) -> (r: Self)
        ensures
            r.wf(),
            r.advances() == 0,
    {
        Lexer { spanned: SpannedLexer::new(s) }
    }

    /// Yields the token the lexer holds and advances the logos lexer once, or
    /// returns `None`, for good and changing nothing, once the end marker has
    /// come up.
    pub fn next(&mut self) -> (r: Option<T>)
        requires
            old(self).wf(),
        ensures
            r == old(self)@,
            match r {
                Some(t) => {
                    &&& t == old(self).held().item
                    &&& !is_end_marker(t, old(self).end_token())
                    &&& final(self).advances() == old(self).advances() + 1
                    &&& final(self).end_token() == old(self).end_token()
                },
                None => *final(self) == *old(self),
            },
            final(self).wf(),
    {
        match self.spanned.next() {
            Some(w) => Some(w.item),
            None => None,
        }
    }
}

/// A bare lexer and a spanned lexer whose logos lexers hold the same match
/// and whose end markers agree yield the same token on their next step, the
/// bare one without its span, where `==` on the token type is known to
/// Verus.
pub proof fn lemma_bare_and_spanned_agree<'a, T: PartialEq, S>(
    bare: Lexer<'a, T, S>,
    spanned: SpannedLexer<'a, T, S>,
)
    requires
        bare.wf(),
        spanned.wf(),
        bare.held() == spanned.held(),
        bare.end_token() == spanned.end_token(),
        T::obeys_eq_spec(),
    ensures
        bare@ == item_of(spanned@),
{
}

/// Two spanned lexers whose logos lexers hold the same match and whose end
/// markers agree yield the same match on their next step, where `==` on the
/// token type is known to Verus.
pub proof fn lemma_equal_models_step_alike<'a, T: PartialEq, S>(
    a: SpannedLexer<'a, T, S>,
    b: SpannedLexer<'a, T, S>,
)
    requires
        a.wf(),
        b.wf(),
        a.held() == b.held(),
        a.end_token() == b.end_token(),
        T::obeys_eq_spec(),
    ensures
        a@ == b@,
{
}

} // verus!

//! Queries: the kinds of symbol that the host names, the context of a query,
//! the symbols that a query resolves, and the stream that hands them to the
//! host one by one.

use std::str::FromStr;
use vstd::prelude::*;
use crate::failure::{Failure, FailureView, Target};
use crate::host::{HostValue, HostValueView, Step};
use crate::runtime::Domain;
use crate::text::{optional_text, texts};

verus! {

/// Whether the engine knows `name` as the canonical name of a kind of symbol.
pub uninterp spec fn is_kind_name(name: Seq<char>) -> bool;

/// Asks the engine whether it knows a name as a kind of symbol, by
/// `onoma::models::parsed::SymbolKind::from_str`. That function compares the
/// name with the fixed list of the engine's kinds, letter for letter, and
/// reads nothing else: whether it succeeds depends on the name alone. This
/// is taken on trust, and it is all that is claimed: which names the engine
/// knows is not said here.
#[verifier::external_body]
fn engine_knows_kind(name: &str) -> (known: bool)
    ensures
        known == is_kind_name(name@),
{
    onoma::models::parsed::SymbolKind::from_str(name).is_ok()
}

/// A kind of symbol, held as the name by which it crosses the boundary.
#[derive(PartialEq, Eq, Debug)]
pub struct SymbolKind {
    name: String,
}

impl View for SymbolKind {
    type V = Seq<char>;

    closed spec fn view(&self) -> Seq<char> {
        self.name@
    }
}

impl Clone for SymbolKind {
    fn clone(&self) -> (copy: SymbolKind)
        ensures
            copy@ == self@,
    {
        SymbolKind { name: self.name.clone() }
    }
}

/// What converting a host value to a kind of symbol gives: the name itself
/// where the engine knows it, else a failure.
pub open spec fn kind_converted(value: HostValueView) -> Result<Seq<char>, FailureView> {
    match value {
        HostValueView::Text(name) => kind_classified(name, is_kind_name(name)),
        HostValueView::Other { value_type } => Err(
            FailureView::ExpectedString { target: Target::SymbolKind, found: value_type },
        ),
    }
}

/// What a name gives once the engine has said whether it knows it.
pub open spec fn kind_classified(name: Seq<char>, known: bool) -> Result<Seq<char>, FailureView> {
    if known {
        Ok(name)
    } else {
        Err(FailureView::UnknownSymbolKind { name })
    }
}

/// A kind or a failure, each by its view.
pub open spec fn kind_result_view(result: Result<SymbolKind, Failure>) -> Result<
    Seq<char>,
    FailureView,
> {
    match result {
        Ok(kind) => Ok(kind@),
        Err(failure) => Err(failure@),
    }
}

impl SymbolKind {
    /// The name by which the kind crosses the boundary.
    pub fn name(&self) -> (name: &str)
        ensures
            name@ == self@,
    {
        self.name.as_str()
    }

    /// Turns a name into a kind, given the engine's answer whether it knows
    /// the name: the kind of that name where it does, a failure that carries
    /// the name where it does not.
    pub fn classified(name: &str, known: bool) -> (result: Result<SymbolKind, Failure>)
        ensures
            kind_result_view(result) == kind_classified(name@, known),
    {
        if known {
            Ok(SymbolKind { name: name.to_owned() })
        } else {
            Err(Failure::UnknownSymbolKind { name: name.to_owned() })
        }
    }

    /// The kind of symbol that a name stands for. A name that the engine
    /// does not know is a conversion failure, reported here and now.
    pub fn from_name(name: &str) -> (result: Result<SymbolKind, Failure>)
        ensures
            kind_result_view(result) == kind_converted(HostValueView::Text(name@)),
    {
        let known = engine_knows_kind(name);
        SymbolKind::classified(name, known)
    }

    /// Converts a host value to a kind of symbol. A value that is no string
    /// is a conversion failure that carries the name of the value's type.
    pub fn from_host(value: &HostValue) -> (result: Result<SymbolKind, Failure>)
        ensures
            kind_result_view(result) == kind_converted(value@),
    {
        match value {
            HostValue::Text(name) => SymbolKind::from_name(name.as_str()),
            HostValue::Other { value_type } => Err(
                Failure::ExpectedString { target: Target::SymbolKind, found: value_type.clone() },
            ),
        }
    }
}

/// The names of a list of kinds, in order.
pub open spec fn kind_names(kinds: Seq<SymbolKind>) -> Seq<Seq<char>> {
    kinds.map_values(|kind: SymbolKind| kind@)
}

/// The views of a list of host values, in order.
pub open spec fn host_views(values: Seq<HostValue>) -> Seq<HostValueView> {
    values.map_values(|value: HostValue| value@)
}

/// What converting a list of host values to kinds of symbol gives: the names
/// of all of them, in order, where each is a name that the engine knows; else
/// the failure of the first that is not.
pub open spec fn kinds_converted(values: Seq<HostValueView>) -> Result<Seq<Seq<char>>, FailureView>
    decreases values.len(),
{
    if values.len() == 0 {
        Ok(Seq::empty())
    } else {
        match kinds_converted(values.drop_last()) {
            Err(failure) => Err(failure),
            Ok(names) => match kind_converted(values.last()) {
                Ok(name) => Ok(names.push(name)),
                Err(failure) => Err(failure),
            },
        }
    }
}

/// A list of kinds or a failure, each by its view.
pub open spec fn kinds_result_view(result: Result<Vec<SymbolKind>, Failure>) -> Result<
    Seq<Seq<char>>,
    FailureView,
> {
    match result {
        Ok(kinds) => Ok(kind_names(kinds@)),
        Err(failure) => Err(failure@),
    }
}

/// Converts the list of kinds that the host gave. Each value is converted as
/// `SymbolKind::from_host` converts it; the first that fails makes the whole
/// conversion fail, so that no value is passed over.
pub fn convert_symbol_kinds(values: &Vec<HostValue>) -> (result: Result<Vec<SymbolKind>, Failure>)
    ensures
        kinds_result_view(result) == kinds_converted(host_views(values@)),
{
    let mut kinds: Vec<SymbolKind> = Vec::new();
    let mut i: usize = 0;
    assert(host_views(values@).take(0).len() == 0);
    assert(kind_names(kinds@) =~= Seq::empty());
    while i < values.len()
        invariant
            i <= values.len(),
            kinds_converted(host_views(values@).take(i as int)) == Ok::<
                Seq<Seq<char>>,
                FailureView,
            >(kind_names(kinds@)),
        decreases values.len() - i,
    {
        let ghost views = host_views(values@);
        assert(views.take(i + 1).drop_last() =~= views.take(i as int));
        assert(views.take(i + 1).last() == values@[i as int]@);
        match SymbolKind::from_host(&values[i]) {
            Ok(kind) => {
                let ghost before = kind_names(kinds@);
                kinds.push(kind);
                assert(kind_names(kinds@) =~= before.push(kind@));
            },
            Err(failure) => {
                proof {
                    kinds_converted_keeps_failure(views, i + 1);
                }
                return Err(failure);
            },
        }
        i += 1;
    }
    assert(host_views(values@).take(i as int) =~= host_views(values@));
    Ok(kinds)
}

/// Once the conversion of a list has failed within its first `upto` values,
/// the whole conversion fails with that failure.
proof fn kinds_converted_keeps_failure(values: Seq<HostValueView>, upto: int)
    requires
        0 <= upto <= values.len(),
        kinds_converted(values.take(upto)) is Err,
    ensures
        kinds_converted(values) == kinds_converted(values.take(upto)),
    decreases values.len() - upto,
{
    if upto < values.len() {
        assert(values.take(upto + 1).drop_last() =~= values.take(upto));
        kinds_converted_keeps_failure(values, upto + 1);
    } else {
        assert(values.take(upto) =~= values);
    }
}

/// The immutable configuration of a query: the file that the host is in, if
/// it gave one, and the kinds of symbol that it accepts, if it gave any.
#[derive(PartialEq, Eq, Debug)]
pub struct Context {
    current_file: Option<String>,
    symbol_kinds: Option<Vec<SymbolKind>>,
}

/// A context with its texts as sequences of characters.
pub struct ContextView {
    pub current_file: Option<Seq<char>>,
    pub symbol_kinds: Option<Seq<Seq<char>>>,
}

impl ContextView {
    /// Whether a query in this context accepts symbols of a kind: of every
    /// kind where the context names none, else of the kinds that it names.
    pub open spec fn admits(self, kind: Seq<char>) -> bool {
        match self.symbol_kinds {
            None => true,
            Some(kinds) => kinds.contains(kind),
        }
    }
}

/// The names of a list of kinds, if there is one.
pub open spec fn kinds_view(kinds: Option<Vec<SymbolKind>>) -> Option<Seq<Seq<char>>> {
    match kinds {
        Some(kinds) => Some(kind_names(kinds@)),
        None => None,
    }
}

impl View for Context {
    type V = ContextView;

    closed spec fn view(&self) -> ContextView {
        ContextView {
            current_file: optional_text(self.current_file),
            symbol_kinds: kinds_view(self.symbol_kinds),
        }
    }
}

/// Copies a list of kinds.
fn copy_kinds(kinds: &Vec<SymbolKind>) -> (copy: Vec<SymbolKind>)
    ensures
        kind_names(copy@) == kind_names(kinds@),
{
    let mut copy: Vec<SymbolKind> = Vec::new();
    let mut i: usize = 0;
    assert(kind_names(copy@) =~= kind_names(kinds@).take(0));
    while i < kinds.len()
        invariant
            i <= kinds.len(),
            kind_names(copy@) == kind_names(kinds@).take(i as int),
        decreases kinds.len() - i,
    {
        let kind = kinds[i].clone();
        let ghost before = kind_names(copy@);
        copy.push(kind);
        i += 1;
        assert(kind_names(copy@) =~= before.push(kind@));
        assert(kind_names(kinds@).take(i as int) =~= before.push(kind@));
    }
    assert(kind_names(kinds@).take(i as int) =~= kind_names(kinds@));
    copy
}

impl Clone for Context {
    fn clone(&self) -> (copy: Context)
        ensures
            copy@ == self@,
    {
        let current_file = match &self.current_file {
            Some(current_file) => Some(current_file.clone()),
            None => None,
        };
        let symbol_kinds = match &self.symbol_kinds {
            Some(symbol_kinds) => Some(copy_kinds(symbol_kinds)),
            None => None,
        };
        Context { current_file, symbol_kinds }
    }
}

impl Context {
    /// The context that narrows nothing: no current file, symbols of every
    /// kind.
    pub fn new() -> (context: Context)
        ensures
            context@ == (ContextView { current_file: None, symbol_kinds: None }),
    {
        Context { current_file: None, symbol_kinds: None }
    }

    /// The same context with `current_file` as its current file.
    pub fn with_current_file(self, current_file: String) -> (context: Context)
        ensures
            context@ == (ContextView { current_file: Some(current_file@), ..self@ }),
    {
        Context { current_file: Some(current_file), symbol_kinds: self.symbol_kinds }
    }

    /// The same context with `symbol_kinds` as the kinds that it accepts.
    pub fn with_symbol_kinds(self, symbol_kinds: Vec<SymbolKind>) -> (context: Context)
        ensures
            context@ == (ContextView { symbol_kinds: Some(kind_names(symbol_kinds@)), ..self@ }),
    {
        Context { current_file: self.current_file, symbol_kinds: Some(symbol_kinds) }
    }

    /// The current file, if the context has one.
    pub fn current_file(&self) -> (current_file: Option<&String>)
        ensures
            current_file is Some == self@.current_file is Some,
            current_file matches Some(file) ==> self@.current_file == Some(file@),
    {
        self.current_file.as_ref()
    }

    /// The kinds of symbol that the context accepts, if it names any.
    pub fn symbol_kinds(&self) -> (symbol_kinds: Option<&Vec<SymbolKind>>)
        ensures
            symbol_kinds is Some == self@.symbol_kinds is Some,
            symbol_kinds matches Some(kinds) ==> self@.symbol_kinds == Some(kind_names(kinds@)),
    {
        self.symbol_kinds.as_ref()
    }
}

/// The context that `create_context` gives.
pub open spec fn created_context(
    current_file: Option<Seq<char>>,
    symbol_kinds: Option<Seq<Seq<char>>>,
) -> ContextView {
    ContextView { current_file, symbol_kinds }
}

/// Creates the context of a query. Each of the two arguments narrows one
/// dimension, and one that is left out leaves its dimension as it is: no
/// current file, symbols of every kind.
pub fn create_context(current_file: Option<String>, symbol_kinds: Option<Vec<SymbolKind>>) -> (context:
    Context)
    ensures
        context@ == created_context(optional_text(current_file), kinds_view(symbol_kinds)),
{
    let mut context = Context::new();
    if let Some(current_file) = current_file {
        context = context.with_current_file(current_file);
    }
    if let Some(symbol_kinds) = symbol_kinds {
        context = context.with_symbol_kinds(symbol_kinds);
    }
    context
}

/// A list of kinds that the host gave is converted as a whole or not at all:
/// the conversion succeeds exactly where every value is a name that the
/// engine knows, and it then gives those names, all of them and in their
/// order. A context created from them accepts a kind exactly where the host
/// named it.
pub proof fn context_accepts_the_kinds_named(
    current_file: Option<Seq<char>>,
    values: Seq<HostValueView>,
)
    ensures
        kinds_converted(values) is Ok <==> forall|i: int|
            0 <= i < values.len() ==> (#[trigger] values[i]) is Text && is_kind_name(
                values[i]->Text_0,
            ),
        kinds_converted(values) matches Ok(names) ==> {
            &&& names.len() == values.len()
            &&& forall|i: int| 0 <= i < names.len() ==> values[i] == HostValueView::Text(names[i])
            &&& forall|kind: Seq<char>|
                created_context(current_file, Some(names)).admits(kind) <==> values.contains(
                    HostValueView::Text(kind),
                )
        },
    decreases values.len(),
{
    if values.len() > 0 {
        let front = values.drop_last();
        context_accepts_the_kinds_named(current_file, front);
        if kinds_converted(values) is Ok {
            let names = kinds_converted(values)->Ok_0;
            let front_names = kinds_converted(front)->Ok_0;
            assert(names == front_names.push(values.last()->Text_0));
            assert forall|i: int| 0 <= i < values.len() implies (#[trigger] values[i]) is Text
                && is_kind_name(values[i]->Text_0) by {
                if i < values.len() - 1 {
                    assert(front[i] == values[i]);
                }
            }
            assert forall|i: int| 0 <= i < names.len() implies values[i] == HostValueView::Text(
                names[i],
            ) by {
                if i < values.len() - 1 {
                    assert(front[i] == values[i]);
                }
            }
            assert forall|kind: Seq<char>|
                created_context(current_file, Some(names)).admits(kind) <==> values.contains(
                    HostValueView::Text(kind),
                ) by {
                if names.contains(kind) {
                    let i = choose|i: int| 0 <= i < names.len() && names[i] == kind;
                    assert(values[i] == HostValueView::Text(kind));
                }
                if values.contains(HostValueView::Text(kind)) {
                    let i = choose|i: int|
                        0 <= i < values.len() && values[i] == HostValueView::Text(kind);
                    assert(names[i] == kind);
                }
            }
        } else {
            if forall|i: int|
                0 <= i < values.len() ==> (#[trigger] values[i]) is Text && is_kind_name(
                    values[i]->Text_0,
                ) {
                assert forall|i: int| 0 <= i < front.len() implies (#[trigger] front[i]) is Text
                    && is_kind_name(front[i]->Text_0) by {
                    assert(front[i] == values[i]);
                }
                assert(values.last() == values[values.len() - 1]);
                assert(false);
            }
        }
    }
}

/// What one poll of the producer of a stream gave.
#[derive(PartialEq, Eq, Debug)]
pub enum Polled<T> {
    /// Nothing yet: the producer is still at work.
    Pending,
    /// The next item.
    Item(T),
    /// The producer has closed: there will be no more items.
    Closed,
}

/// The state of a stream of results: whether its end has been signalled, and
/// the items that it has handed out so far, in their order.
pub struct StreamView<T> {
    pub exhausted: bool,
    pub delivered: Seq<T>,
}

impl<T> StreamView<T> {
    /// The stream after one step of `next` on what a poll gave.
    pub open spec fn stepped(self, polled: Polled<T>) -> StreamView<T> {
        if self.exhausted {
            self
        } else {
            match polled {
                Polled::Pending => self,
                Polled::Item(item) => StreamView { delivered: self.delivered.push(item), ..self },
                Polled::Closed => StreamView { exhausted: true, ..self },
            }
        }
    }

    /// What one step of `next` answers on what a poll gave.
    pub open spec fn answer(self, polled: Polled<T>) -> Step<Option<T>> {
        if self.exhausted {
            Step::Done(None)
        } else {
            match polled {
                Polled::Pending => Step::NotYet,
                Polled::Item(item) => Step::Done(Some(item)),
                Polled::Closed => Step::Done(None),
            }
        }
    }

    /// The stream after a step of `next` on each of `polls`, in order.
    pub open spec fn after(self, polls: Seq<Polled<T>>) -> StreamView<T>
        decreases polls.len(),
    {
        if polls.len() == 0 {
            self
        } else {
            self.after(polls.drop_last()).stepped(polls.last())
        }
    }

    /// What the step of `next` on `polls[at]` answers, after a step on each
    /// poll before it.
    pub open spec fn answer_at(self, polls: Seq<Polled<T>>, at: int) -> Step<Option<T>>
        recommends
            0 <= at < polls.len(),
    {
        self.after(polls.take(at)).answer(polls[at])
    }
}

/// Whether the producer has closed within a sequence of polls.
pub open spec fn closed_within<T>(polls: Seq<Polled<T>>) -> bool {
    exists|i: int| 0 <= i < polls.len() && (#[trigger] polls[i]) is Closed
}

/// The items that the producer gave before it closed, in its order.
pub open spec fn produced<T>(polls: Seq<Polled<T>>) -> Seq<T>
    decreases polls.len(),
{
    if polls.len() == 0 {
        Seq::empty()
    } else if closed_within(polls.drop_last()) {
        produced(polls.drop_last())
    } else {
        match polls.last() {
            Polled::Item(item) => produced(polls.drop_last()).push(item),
            _ => produced(polls.drop_last()),
        }
    }
}

/// The stream of the results of one query. It belongs to the caller that the
/// query gave it to, and it hands out the items in the order in which the
/// producer gave them, then signals the end, and then signals the end again
/// whenever it is asked.
pub struct ReceiverStream<T> {
    exhausted: bool,
    delivered: Ghost<Seq<T>>,
}

impl<T> View for ReceiverStream<T> {
    type V = StreamView<T>;

    closed spec fn view(&self) -> StreamView<T> {
        StreamView { exhausted: self.exhausted, delivered: self.delivered@ }
    }
}

impl<T> ReceiverStream<T> {
    /// A stream that has handed out nothing yet.
    pub fn new() -> (stream: ReceiverStream<T>)
        ensures
            stream@ == (StreamView { exhausted: false, delivered: Seq::<T>::empty() }),
    {
        ReceiverStream { exhausted: false, delivered: Ghost(Seq::empty()) }
    }

    /// Whether the end of the stream has been signalled. The producer of an
    /// exhausted stream need not be polled again.
    pub fn is_exhausted(&self) -> (exhausted: bool)
        ensures
            exhausted == self@.exhausted,
    {
        self.exhausted
    }

    /// One step of the host's `next`, on what a poll of the producer gave:
    /// not yet, the next item, or the end of the stream. Once the end has
    /// been signalled every step signals it again, whatever the poll gave.
    pub fn next(&mut self, polled: Polled<T>) -> (step: Step<Option<T>>)
        ensures
            final(self)@ == old(self)@.stepped(polled),
            step == old(self)@.answer(polled),
    {
        if self.exhausted {
            return Step::Done(None);
        }
        match polled {
            Polled::Pending => Step::NotYet,
            Polled::Item(item) => {
                proof {
                    self.delivered@ = self.delivered@.push(item);
                }
                Step::Done(Some(item))
            },
            Polled::Closed => {
                self.exhausted = true;
                Step::Done(None)
            },
        }
    }
}

/// A stream hands out exactly the items that its producer gave before it
/// closed, in the producer's order, and its end has been signalled exactly
/// where it was exhausted before or the producer has closed since.
pub proof fn stream_keeps_producer_order<T>(stream: StreamView<T>, polls: Seq<Polled<T>>)
    requires
        !stream.exhausted,
    ensures
        stream.after(polls).exhausted == closed_within(polls),
        stream.after(polls).delivered == stream.delivered + produced(polls),
    decreases polls.len(),
{
    if polls.len() == 0 {
        assert(stream.delivered + produced(polls) =~= stream.delivered);
    } else {
        let front = polls.drop_last();
        stream_keeps_producer_order(stream, front);
        if closed_within(front) {
            let i = choose|i: int| 0 <= i < front.len() && (#[trigger] front[i]) is Closed;
            assert(polls[i] is Closed);
        } else if polls.last() is Closed {
            assert(polls[polls.len() - 1] is Closed);
        } else {
            if closed_within(polls) {
                let i = choose|i: int| 0 <= i < polls.len() && (#[trigger] polls[i]) is Closed;
                assert(front[i] is Closed);
            }
        }
        assert(stream.after(polls).delivered =~= stream.delivered + produced(polls));
    }
}

/// Exhaustion is permanent: once a step of `next` has signalled the end of
/// the stream, every later step signals it too, whatever the polls give.
pub proof fn exhaustion_is_permanent<T>(
    stream: StreamView<T>,
    polls: Seq<Polled<T>>,
    first: int,
    later: int,
)
    requires
        0 <= first < later < polls.len(),
        stream.answer_at(polls, first) == Step::<Option<T>>::Done(None),
    ensures
        stream.answer_at(polls, later) == Step::<Option<T>>::Done(None),
        stream.after(polls.take(later)).exhausted,
    decreases later - first,
{
    assert(polls.take(later).drop_last() =~= polls.take(later - 1));
    assert(polls.take(later).last() == polls[later - 1]);
    if later - 1 > first {
        exhaustion_is_permanent(stream, polls, first, later - 1);
    }
}

/// One symbol that a query resolved: a snapshot, copied field by field.
#[derive(PartialEq, Eq, Debug)]
pub struct ResolvedSymbol {
    id: i64,
    kind: SymbolKind,
    name: String,
    path: String,
    score: i64,
    start_line: i64,
    start_column: i64,
    end_line: i64,
    end_column: i64,
}

/// A resolved symbol with its texts as sequences of characters.
pub struct ResolvedSymbolView {
    pub id: i64,
    pub kind: Seq<char>,
    pub name: Seq<char>,
    pub path: Seq<char>,
    pub score: i64,
    pub start_line: i64,
    pub start_column: i64,
    pub end_line: i64,
    pub end_column: i64,
}

impl View for ResolvedSymbol {
    type V = ResolvedSymbolView;

    closed spec fn view(&self) -> ResolvedSymbolView {
        ResolvedSymbolView {
            id: self.id,
            kind: self.kind@,
            name: self.name@,
            path: self.path@,
            score: self.score,
            start_line: self.start_line,
            start_column: self.start_column,
            end_line: self.end_line,
            end_column: self.end_column,
        }
    }
}

impl Clone for ResolvedSymbol {
    fn clone(&self) -> (copy: ResolvedSymbol)
        ensures
            copy@ == self@,
    {
        ResolvedSymbol {
            id: self.id,
            kind: self.kind.clone(),
            name: self.name.clone(),
            path: self.path.clone(),
            score: self.score,
            start_line: self.start_line,
            start_column: self.start_column,
            end_line: self.end_line,
            end_column: self.end_column,
        }
    }
}

impl ResolvedSymbol {
    /// The snapshot of a symbol, from its fields.
    pub fn new(
        id: i64,
        kind: SymbolKind,
        name: String,
        path: String,
        score: i64,
        start_line: i64,
        start_column: i64,
        end_line: i64,
        end_column: i64,
    ) -> (symbol: ResolvedSymbol)
        ensures
            symbol@ == (ResolvedSymbolView {
                id,
                kind: kind@,
                name: name@,
                path: path@,
                score,
                start_line,
                start_column,
                end_line,
                end_column,
            }),
    {
        ResolvedSymbol {
            id,
            kind,
            name,
            path,
            score,
            start_line,
            start_column,
            end_line,
            end_column,
        }
    }

    /// The identifier of the symbol in the index.
    pub fn id(&self) -> (id: i64)
        ensures
            id == self@.id,
    {
        self.id
    }

    /// The kind of the symbol.
    pub fn kind(&self) -> (kind: &SymbolKind)
        ensures
            kind@ == self@.kind,
    {
        &self.kind
    }

    /// The name of the symbol.
    pub fn name(&self) -> (name: &str)
        ensures
            name@ == self@.name,
    {
        self.name.as_str()
    }

    /// The path of the file that holds the symbol.
    pub fn path(&self) -> (path: &str)
        ensures
            path@ == self@.path,
    {
        self.path.as_str()
    }

    /// How well the symbol matches the query.
    pub fn score(&self) -> (score: i64)
        ensures
            score == self@.score,
    {
        self.score
    }

    /// The line on which the symbol starts.
    pub fn start_line(&self) -> (line: i64)
        ensures
            line == self@.start_line,
    {
        self.start_line
    }

    /// The column at which the symbol starts.
    pub fn start_column(&self) -> (column: i64)
        ensures
            column == self@.start_column,
    {
        self.start_column
    }

    /// The line on which the symbol ends.
    pub fn end_line(&self) -> (line: i64)
        ensures
            line == self@.end_line,
    {
        self.end_line
    }

    /// The column at which the symbol ends.
    pub fn end_column(&self) -> (column: i64)
        ensures
            column == self@.end_column,
    {
        self.end_column
    }
}

/// The roots that a resolver was made for, and through it the index that
/// its queries are run against.
#[derive(PartialEq, Eq, Debug)]
pub struct Resolver {
    directories: Vec<String>,
}

impl View for Resolver {
    type V = Seq<Seq<char>>;

    closed spec fn view(&self) -> Seq<Seq<char>> {
        texts(self.directories@)
    }
}

/// What a query hands to the engine: its own copy of the text, and the
/// context.
#[derive(PartialEq, Eq, Debug)]
pub struct Query {
    pub text: String,
    pub context: Context,
}

/// Makes the resolver for a list of root directories.
pub fn get_resolver(directories: Vec<String>) -> (resolver: Resolver)
    ensures
        resolver@ == texts(directories@),
{
    Resolver { directories }
}

impl Resolver {
    /// The engine that the work of a resolver runs on.
    pub fn domain(&self) -> (domain: Domain)
        ensures
            domain == Domain::Query,
    {
        Domain::Query
    }

    /// The root directories that the resolver was made for.
    pub fn directories(&self) -> (directories: &Vec<String>)
        ensures
            texts(directories@) == self@,
    {
        &self.directories
    }

    /// Starts a query. It never fails: the engine is handed the text and
    /// the context as they are, and the caller gets a stream that has handed
    /// out nothing yet. Whatever goes wrong later ends the stream.
    pub fn query(&self, text: String, context: Context) -> (started: (
        Query,
        ReceiverStream<ResolvedSymbol>,
    ))
        ensures
            started.0.text@ == text@,
            started.0.context@ == context@,
            started.1@ == (StreamView {
                exhausted: false,
                delivered: Seq::<ResolvedSymbol>::empty(),
            }),
    {
        (Query { text, context }, ReceiverStream::new())
    }
}

} // verus!

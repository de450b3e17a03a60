//! Handlers for the supported update kinds.
//!
//! A [`Handler`] wraps a callable for exactly one of the seven supported
//! kinds: one of the six specific event kinds, or the kind-agnostic update
//! handler that sees every update. When a handler of a specific kind
//! receives an update of another kind it contributes a no-op success; the
//! kind-agnostic variant is invoked unconditionally and never also as a
//! kind-specific one.
//!
//! [`CommandsHandler`] is a message handler that routes the first command
//! of a message to a named sub-handler, handing it the arguments parsed by
//! [`crate::command::parse_args`], with an optional fallback for unknown
//! command names.

use crate::command::{parse_args, parse_args_spec, CommandError};
use crate::context::Context;
use crate::types::{
    CallbackQuery, ChosenInlineResult, InlineQuery, Message, PreCheckoutQuery, ShippingQuery,
    Update, UpdateKind,
};
use vstd::prelude::*;
use vstd::string::*;

verus! {

/// A failure reported by one handler invocation. The dispatcher never
/// inspects why a handler failed, only that it failed.
#[derive(Clone, Debug, PartialEq)]
pub enum HandlerError {
    /// Failure of the command-argument parser.
    Command(CommandError),
    /// A failure of a handler's own logic, opaque to the dispatch pipeline.
    Custom(String),
}

/// The completion of one handler invocation: success, or a typed failure.
/// Synchronous handler results are lifted into this one shape so that the
/// dispatcher treats every handler alike.
#[derive(Debug)]
pub struct HandlerFuture {
    pub result: Result<(), HandlerError>,
}

impl HandlerFuture {
    /// Creates a completion from a handler's result.
    pub fn new(result: Result<(), HandlerError>) -> (r: HandlerFuture)
        ensures
            r.result == result,
    {
        HandlerFuture { result }
    }

    /// The no-op success completion.
    pub fn done() -> (r: HandlerFuture)
        ensures
            r.result == Ok::<(), HandlerError>(()),
    {
        HandlerFuture { result: Ok(()) }
    }
}

impl vstd::std_specs::convert::FromSpecImpl<()> for HandlerFuture {
    open spec fn obeys_from_spec() -> bool {
        true
    }

    open spec fn from_spec(v: ()) -> HandlerFuture {
        HandlerFuture { result: Ok(()) }
    }
}

impl From<()> for HandlerFuture {
    /// A unit return is a success.
    fn from(v: ()) -> (r: HandlerFuture) {
        HandlerFuture { result: Ok(()) }
    }
}

impl vstd::std_specs::convert::FromSpecImpl<Result<(), HandlerError>> for HandlerFuture {
    open spec fn obeys_from_spec() -> bool {
        true
    }

    open spec fn from_spec(v: Result<(), HandlerError>) -> HandlerFuture {
        HandlerFuture { result: v }
    }
}

impl From<Result<(), HandlerError>> for HandlerFuture {
    /// A result return is a completion with that outcome.
    fn from(v: Result<(), HandlerError>) -> (r: HandlerFuture) {
        HandlerFuture { result: v }
    }
}

/// A regular message handler.
pub trait MessageHandler<V> {
    /// Handles a message.
    fn handle(&mut self, context: &mut Context<V>, message: &Message) -> (r: HandlerFuture)
        requires
            message.wf(),
    ;
}

/// An inline query handler.
pub trait InlineQueryHandler<V> {
    /// Handles a query.
    fn handle(&mut self, context: &mut Context<V>, query: &InlineQuery) -> (r: HandlerFuture);
}

/// A chosen inline result handler.
pub trait ChosenInlineResultHandler<V> {
    /// Handles a result.
    fn handle(&mut self, context: &mut Context<V>, result: &ChosenInlineResult) -> (r:
        HandlerFuture);
}

/// A callback query handler.
pub trait CallbackQueryHandler<V> {
    /// Handles a query.
    fn handle(&mut self, context: &mut Context<V>, query: &CallbackQuery) -> (r: HandlerFuture);
}

/// A shipping query handler.
pub trait ShippingQueryHandler<V> {
    /// Handles a query.
    fn handle(&mut self, context: &mut Context<V>, query: &ShippingQuery) -> (r: HandlerFuture);
}

/// A pre-checkout query handler.
pub trait PreCheckoutQueryHandler<V> {
    /// Handles a query.
    fn handle(&mut self, context: &mut Context<V>, query: &PreCheckoutQuery) -> (r: HandlerFuture);
}

/// A kind-agnostic update handler.
pub trait UpdateHandler<V> {
    /// Handles an update.
    fn handle(&mut self, context: &mut Context<V>, update: &Update) -> (r: HandlerFuture)
        requires
            update.wf(),
    ;
}

/// The kind of callable a [`Handler`] wraps.
#[derive(Clone, Copy, Debug, PartialEq, Eq, Structural)]
pub enum HandlerTag {
    Message,
    InlineQuery,
    ChosenInlineResult,
    CallbackQuery,
    ShippingQuery,
    PreCheckoutQuery,
    Update,
}

/// The routing rule: whether a handler of kind `tag` is invoked for `u`.
/// The kind-agnostic tag applies to every update; the message tag applies
/// to the four message-like kinds; every other tag applies exactly to its
/// own kind.
pub open spec fn applies(tag: HandlerTag, u: Update) -> bool {
    match tag {
        HandlerTag::Update => true,
        HandlerTag::Message => u.kind is Message || u.kind is EditedMessage || u.kind
            is ChannelPost || u.kind is EditedChannelPost,
        HandlerTag::InlineQuery => u.kind is InlineQuery,
        HandlerTag::ChosenInlineResult => u.kind is ChosenInlineResult,
        HandlerTag::CallbackQuery => u.kind is CallbackQuery,
        HandlerTag::ShippingQuery => u.kind is ShippingQuery,
        HandlerTag::PreCheckoutQuery => u.kind is PreCheckoutQuery,
    }
}

/// The kind-agnostic handler kind sees every update.
pub proof fn lemma_update_handler_applies_to_all(u: Update)
    ensures
        applies(HandlerTag::Update, u),
{
}

/// A message handler applies to an update exactly when the update is of
/// one of the four message-like kinds.
pub proof fn lemma_message_handler_applies_to_message_like(u: Update)
    ensures
        applies(HandlerTag::Message, u) <==> (u.kind is Message || u.kind is EditedMessage
            || u.kind is ChannelPost || u.kind is EditedChannelPost),
{
}

enum HandlerKind<M, I, R, C, S, P, U> {
    Message(M),
    InlineQuery(I),
    ChosenInlineResult(R),
    CallbackQuery(C),
    ShippingQuery(S),
    PreCheckoutQuery(P),
    Update(U),
}

/// A regular update handler: a callable for exactly one update kind.
///
/// The seven type parameters are the callable types of the seven kinds;
/// slots a host does not use can be filled with [`NoopHandler`].
pub struct Handler<M, I, R, C, S, P, U> {
    kind: HandlerKind<M, I, R, C, S, P, U>,
}

impl<M, I, R, C, S, P, U> Handler<M, I, R, C, S, P, U> {
    /// The kind of callable this handler wraps.
    pub closed spec fn tag(&self) -> HandlerTag {
        match self.kind {
            HandlerKind::Message(_) => HandlerTag::Message,
            HandlerKind::InlineQuery(_) => HandlerTag::InlineQuery,
            HandlerKind::ChosenInlineResult(_) => HandlerTag::ChosenInlineResult,
            HandlerKind::CallbackQuery(_) => HandlerTag::CallbackQuery,
            HandlerKind::ShippingQuery(_) => HandlerTag::ShippingQuery,
            HandlerKind::PreCheckoutQuery(_) => HandlerTag::PreCheckoutQuery,
            HandlerKind::Update(_) => HandlerTag::Update,
        }
    }

    /// Create message handler
    pub fn message(handler: M) -> (r: Self)
        ensures
            r.tag() == HandlerTag::Message,
    {
        Handler { kind: HandlerKind::Message(handler) }
    }

    /// Create inline query handler
    pub fn inline_query(handler: I) -> (r: Self)
        ensures
            r.tag() == HandlerTag::InlineQuery,
    {
        Handler { kind: HandlerKind::InlineQuery(handler) }
    }

    /// Create chosen inline result handler
    pub fn chosen_inline_result(handler: R) -> (r: Self)
        ensures
            r.tag() == HandlerTag::ChosenInlineResult,
    {
        Handler { kind: HandlerKind::ChosenInlineResult(handler) }
    }

    /// Create callback query handler
    pub fn callback_query(handler: C) -> (r: Self)
        ensures
            r.tag() == HandlerTag::CallbackQuery,
    {
        Handler { kind: HandlerKind::CallbackQuery(handler) }
    }

    /// Create shipping query handler
    pub fn shipping_query(handler: S) -> (r: Self)
        ensures
            r.tag() == HandlerTag::ShippingQuery,
    {
        Handler { kind: HandlerKind::ShippingQuery(handler) }
    }

    /// Create pre checkout query handler
    pub fn pre_checkout_query(handler: P) -> (r: Self)
        ensures
            r.tag() == HandlerTag::PreCheckoutQuery,
    {
        Handler { kind: HandlerKind::PreCheckoutQuery(handler) }
    }

    /// Create a kind-agnostic update handler
    pub fn update(handler: U) -> (r: Self)
        ensures
            r.tag() == HandlerTag::Update,
    {
        Handler { kind: HandlerKind::Update(handler) }
    }

    /// Whether this handler's kind matches `update` under the routing rule.
    pub fn applies(&self, update: &Update) -> (b: bool)
        ensures
            b == applies(self.tag(), *update),
    {
        match &self.kind {
            HandlerKind::Update(_) => true,
            HandlerKind::Message(_) => match &update.kind {
                UpdateKind::Message(_) => true,
                UpdateKind::EditedMessage(_) => true,
                UpdateKind::ChannelPost(_) => true,
                UpdateKind::EditedChannelPost(_) => true,
                _ => false,
            },
            HandlerKind::InlineQuery(_) => matches!(&update.kind, UpdateKind::InlineQuery(_)),
            HandlerKind::ChosenInlineResult(_) => matches!(
                &update.kind,
                UpdateKind::ChosenInlineResult(_),
            ),
            HandlerKind::CallbackQuery(_) => matches!(&update.kind, UpdateKind::CallbackQuery(_)),
            HandlerKind::ShippingQuery(_) => matches!(&update.kind, UpdateKind::ShippingQuery(_)),
            HandlerKind::PreCheckoutQuery(_) => matches!(
                &update.kind,
                UpdateKind::PreCheckoutQuery(_),
            ),
        }
    }

    /// Invokes the wrapped callable if this handler's kind matches the
    /// update, unwrapping the payload; a handler whose kind does not match
    /// contributes a no-op success and changes nothing.
    pub(crate) fn handle<V>(&mut self, context: &mut Context<V>, update: &Update) -> (r:
        HandlerFuture) where
        M: MessageHandler<V>,
        I: InlineQueryHandler<V>,
        R: ChosenInlineResultHandler<V>,
        C: CallbackQueryHandler<V>,
        S: ShippingQueryHandler<V>,
        P: PreCheckoutQueryHandler<V>,
        U: UpdateHandler<V>,

        requires
            update.wf(),
        ensures
            final(self).tag() == old(self).tag(),
            !applies(old(self).tag(), *update) ==> r.result == Ok::<(), HandlerError>(())
                && *final(self) == *old(self) && *final(context) == *old(context),
    {
        match &mut self.kind {
            HandlerKind::Update(h) => h.handle(context, update),
            HandlerKind::Message(h) => match &update.kind {
                UpdateKind::Message(m) => h.handle(context, m),
                UpdateKind::EditedMessage(m) => h.handle(context, m),
                UpdateKind::ChannelPost(m) => h.handle(context, m),
                UpdateKind::EditedChannelPost(m) => h.handle(context, m),
                _ => HandlerFuture::done(),
            },
            HandlerKind::InlineQuery(h) => match &update.kind {
                UpdateKind::InlineQuery(q) => h.handle(context, q),
                _ => HandlerFuture::done(),
            },
            HandlerKind::ChosenInlineResult(h) => match &update.kind {
                UpdateKind::ChosenInlineResult(q) => h.handle(context, q),
                _ => HandlerFuture::done(),
            },
            HandlerKind::CallbackQuery(h) => match &update.kind {
                UpdateKind::CallbackQuery(q) => h.handle(context, q),
                _ => HandlerFuture::done(),
            },
            HandlerKind::ShippingQuery(h) => match &update.kind {
                UpdateKind::ShippingQuery(q) => h.handle(context, q),
                _ => HandlerFuture::done(),
            },
            HandlerKind::PreCheckoutQuery(h) => match &update.kind {
                UpdateKind::PreCheckoutQuery(q) => h.handle(context, q),
                _ => HandlerFuture::done(),
            },
        }
    }
}

/// A callable for every handler kind that does nothing and succeeds; fills
/// the unused type-parameter slots of [`Handler`].
pub struct NoopHandler;

impl<V> MessageHandler<V> for NoopHandler {
    fn handle(&mut self, context: &mut Context<V>, message: &Message) -> (r: HandlerFuture) {
        HandlerFuture::done()
    }
}

impl<V> InlineQueryHandler<V> for NoopHandler {
    fn handle(&mut self, context: &mut Context<V>, query: &InlineQuery) -> (r: HandlerFuture) {
        HandlerFuture::done()
    }
}

impl<V> ChosenInlineResultHandler<V> for NoopHandler {
    fn handle(&mut self, context: &mut Context<V>, result: &ChosenInlineResult) -> (r:
        HandlerFuture) {
        HandlerFuture::done()
    }
}

impl<V> CallbackQueryHandler<V> for NoopHandler {
    fn handle(&mut self, context: &mut Context<V>, query: &CallbackQuery) -> (r: HandlerFuture) {
        HandlerFuture::done()
    }
}

impl<V> ShippingQueryHandler<V> for NoopHandler {
    fn handle(&mut self, context: &mut Context<V>, query: &ShippingQuery) -> (r: HandlerFuture) {
        HandlerFuture::done()
    }
}

impl<V> PreCheckoutQueryHandler<V> for NoopHandler {
    fn handle(&mut self, context: &mut Context<V>, query: &PreCheckoutQuery) -> (r: HandlerFuture) {
        HandlerFuture::done()
    }
}

impl<V> UpdateHandler<V> for NoopHandler {
    fn handle(&mut self, context: &mut Context<V>, update: &Update) -> (r: HandlerFuture) {
        HandlerFuture::done()
    }
}

/// Actual command handler
pub trait CommandHandler<V> {
    /// Handles a command, given the parsed trailing arguments.
    fn handle(&mut self, context: &mut Context<V>, message: &Message, args: Vec<String>) -> (r:
        HandlerFuture)
        requires
            message.wf(),
    ;
}

/// First match for `name` in the command table `es`.
pub open spec fn table_lookup<C>(es: Seq<(Seq<char>, C)>, name: Seq<char>) -> Option<C>
    decreases es.len(),
{
    if es.len() == 0 {
        None
    } else if es[0].0 == name {
        Some(es[0].1)
    } else {
        table_lookup(es.drop_first(), name)
    }
}

proof fn lemma_lookup_from_index<C>(es: Seq<(Seq<char>, C)>, n: Seq<char>, i: int)
    requires
        0 <= i < es.len(),
        es[i].0 == n,
        forall|j: int| 0 <= j < i ==> es[j].0 != n,
    ensures
        table_lookup(es, n) == Some(es[i].1),
    decreases i,
{
    if i > 0 {
        lemma_lookup_from_index(es.drop_first(), n, i - 1);
    }
}

proof fn lemma_lookup_none<C>(es: Seq<(Seq<char>, C)>, n: Seq<char>)
    requires
        forall|j: int| 0 <= j < es.len() ==> es[j].0 != n,
    ensures
        table_lookup(es, n) is None,
    decreases es.len(),
{
    if es.len() > 0 {
        lemma_lookup_none(es.drop_first(), n);
    }
}

/// How a message routes through a commands handler, given whether the
/// first command's name is known to the table and whether a fallback is
/// registered.
pub enum Route {
    /// No parsed commands or no text body: a no-op success.
    Skip,
    /// Parsing the command's trailing arguments failed.
    Fail(CommandError),
    /// The name is in the table: its handler receives `args`.
    Dispatch { name: Seq<char>, args: Seq<Seq<char>> },
    /// The name is absent and a fallback is registered: it receives `args`.
    Fallback { name: Seq<char>, args: Seq<Seq<char>> },
    /// The name is absent and there is no fallback: a no-op success.
    Unhandled { name: Seq<char>, args: Seq<Seq<char>> },
}

/// The routing decision for `m`. Only the first command of a message is
/// considered; any further commands are ignored by design.
pub open spec fn route(m: Message, name_known: bool, has_fallback: bool) -> Route {
    match (m.commands, m.text) {
        (Some(cs), Some(t)) => {
            let c = cs@[0];
            match parse_args_spec(t@, c.offset + c.length) {
                Err(e) => Route::Fail(e),
                Ok(args) => if name_known {
                    (Route::Dispatch { name: c.command@, args })
                } else if has_fallback {
                    (Route::Fallback { name: c.command@, args })
                } else {
                    (Route::Unhandled { name: c.command@, args })
                },
            }
        },
        _ => Route::Skip,
    }
}

/// A command name absent from the table goes to the fallback with exactly
/// the arguments a matching table entry would have received.
pub proof fn lemma_fallback_gets_same_args(m: Message, has_fallback: bool)
    ensures
        route(m, true, has_fallback) matches Route::Dispatch { name, args } ==> route(m, false, true)
            == (Route::Fallback { name, args }),
{
}

/// A simple commands handler
///
/// Takes the first command from a message and ignores the others.
/// Assumes that all text after the command is arguments.
/// Use quotes in order to include spaces in an argument: `'hello word'`
pub struct CommandsHandler<C> {
    handlers: Vec<(String, C)>,
    not_found_handler: Option<C>,
}

impl<C> CommandsHandler<C> {
    /// The table as pairs of command name and callable, in lookup order.
    pub closed spec fn entries(&self) -> Seq<(Seq<char>, C)> {
        self.handlers@.map_values(|p: (String, C)| (p.0@, p.1))
    }

    /// The fallback callable for unknown command names, if registered.
    pub closed spec fn fallback(&self) -> Option<C> {
        self.not_found_handler
    }

    /// The command names in the table, in lookup order.
    pub open spec fn names(&self) -> Seq<Seq<char>> {
        self.entries().map_values(|e: (Seq<char>, C)| e.0)
    }

    pub open spec fn has_fallback(&self) -> bool {
        self.fallback() is Some
    }

    /// Add command handler
    ///
    /// # Arguments
    ///
    /// - name - Command name (starts with `/`)
    /// - handler - Command handler
    ///
    /// Replaces any prior callable registered under `name`.
    pub fn add_handler(self, name: &str, handler: C) -> (r: Self)
        ensures
            table_lookup(r.entries(), name@) == Some(handler),
            forall|n: Seq<char>| n != name@ ==> table_lookup(r.entries(), n) == table_lookup(
                self.entries(),
                n,
            ),
            r.fallback() == self.fallback(),
    {
        let owned: String = String::from_str(name);
        let mut handlers = self.handlers;
        let ghost es0 = handlers@.map_values(|p: (String, C)| (p.0@, p.1));
        handlers.insert(0, (owned, handler));
        let r = CommandsHandler { handlers, not_found_handler: self.not_found_handler };
        proof {
            assert(r.entries().drop_first() =~= es0);
            assert(r.entries()[0] == (name@, handler));
            assert(table_lookup(r.entries(), name@) == Some(handler));
            assert forall|n: Seq<char>| n != name@ implies table_lookup(r.entries(), n)
                == table_lookup(es0, n) by {
                assert(table_lookup(r.entries(), n) == table_lookup(r.entries().drop_first(), n));
            }
        }
        r
    }

    /// Add not found command handler
    pub fn not_found_handler(self, handler: C) -> (r: Self)
        ensures
            r.entries() == self.entries(),
            r.fallback() == Some(handler),
    {
        CommandsHandler { handlers: self.handlers, not_found_handler: Some(handler) }
    }

    /// Index of the first table entry under `name`, if the name is known.
    fn find_index(&self, name: &String) -> (r: Option<usize>)
        ensures
            match r {
                Some(i) => i < self.entries().len() && self.entries()[i as int].0 == name@
                    && table_lookup(self.entries(), name@) == Some(self.entries()[i as int].1),
                None => table_lookup(self.entries(), name@) is None,
            },
    {
        let n = self.handlers.len();
        let mut i: usize = 0;
        while i < n
            invariant
                i <= n,
                n == self.entries().len(),
                forall|j: int| 0 <= j < i ==> self.entries()[j].0 != name@,
            decreases n - i,
        {
            if self.handlers[i].0 == *name {
                proof {
                    lemma_lookup_from_index(self.entries(), name@, i as int);
                }
                return Some(i);
            }
            i = i + 1;
        }
        proof {
            lemma_lookup_none(self.entries(), name@);
        }
        None
    }

    /// Routes a message: a no-op success if it has no commands or no text;
    /// otherwise parses the first command's trailing arguments and invokes
    /// the callable under the command's name, or the fallback if the name
    /// is unknown, or nothing if there is no fallback either. A parse
    /// failure is surfaced to the caller, never swallowed.
    pub fn handle_message<V>(&mut self, context: &mut Context<V>, message: &Message) -> (r:
        HandlerFuture) where C: CommandHandler<V>
        requires
            message.wf(),
        ensures
            final(self).names() == old(self).names(),
            final(self).has_fallback() == old(self).has_fallback(),
            ({
                let known = match message.commands {
                    Some(cs) => table_lookup(old(self).entries(), cs@[0].command@) is Some,
                    None => false,
                };
                let rt = route(*message, known, old(self).has_fallback());
                &&& (rt is Skip ==> r.result == Ok::<(), HandlerError>(()) && *final(self) == *old(
                    self,
                ) && *final(context) == *old(context))
                &&& (rt matches Route::Fail(e) ==> r.result == Err::<(), HandlerError>(
                    HandlerError::Command(e),
                ) && *final(self) == *old(self) && *final(context) == *old(context))
                &&& (rt matches Route::Unhandled { .. } ==> r.result == Ok::<(), HandlerError>(())
                    && *final(self) == *old(self) && *final(context) == *old(context))
            }),
    {
        match (&message.commands, &message.text) {
            (Some(cs), Some(t)) => {
                let first = &cs[0];
                match parse_args(t.as_str(), first.offset, first.length) {
                    Ok(args) => {
                        match self.find_index(&first.command) {
                            Some(i) => {
                                let fut = self.handlers[i].1.handle(context, message, args);
                                proof {
                                    assert(final(self).names() =~= old(self).names());
                                }
                                fut
                            },
                            None => {
                                match &mut self.not_found_handler {
                                    Some(h) => h.handle(context, message, args),
                                    None => HandlerFuture::done(),
                                }
                            },
                        }
                    },
                    Err(e) => HandlerFuture::new(Err(HandlerError::Command(e))),
                }
            },
            _ => HandlerFuture::done(),
        }
    }
}

impl<C> Default for CommandsHandler<C> {
    /// An empty commands handler: no table entries and no fallback.
    fn default() -> (r: Self)
        ensures
            r.entries() == Seq::<(Seq<char>, C)>::empty(),
            r.fallback() is None,
    {
        let r = CommandsHandler { handlers: Vec::new(), not_found_handler: None };
        proof {
            assert(r.entries() =~= Seq::<(Seq<char>, C)>::empty());
        }
        r
    }
}

impl<V, C: CommandHandler<V>> MessageHandler<V> for CommandsHandler<C> {
    fn handle(&mut self, context: &mut Context<V>, message: &Message) -> (r: HandlerFuture) {
        self.handle_message(context, message)
    }
}

} // verus!

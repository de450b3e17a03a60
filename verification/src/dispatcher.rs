//! The dispatcher: one update at a time through two handler chains.
//!
//! A [`Dispatcher`] owns an ordered pre-chain and an ordered main chain of
//! handlers, each chain with one error strategy applied uniformly to all
//! its handlers. `dispatch` runs the pre-chain in registration order,
//! awaiting each matching handler fully before the next starts; if the
//! pre-chain did not abort, the main chain runs the same way. Under
//! [`ErrorStrategy::Abort`] the first failure stops the whole run and is
//! returned; under [`ErrorStrategy::Ignore`] failures are recorded and the
//! run continues. Each run leaves a report of what it invoked and with
//! what outcome in `pre_log` and `main_log`.

use crate::context::Context;
use crate::handler::{
    applies, CallbackQueryHandler, ChosenInlineResultHandler, Handler, HandlerError, HandlerTag,
    InlineQueryHandler, MessageHandler, PreCheckoutQueryHandler, ShippingQueryHandler,
    UpdateHandler,
};
use crate::types::Update;
use vstd::prelude::*;

verus! {

/// What a chain does after one of its handlers fails.
#[derive(Clone, Copy, Debug, PartialEq, Eq, Structural)]
pub enum ErrorStrategy {
    /// Stop the whole dispatch run and return the failure.
    Abort,
    /// Record the failure and continue with the next handler.
    Ignore,
}

/// One record of a chain run: the handler at `index` was invoked and
/// completed with success (`ok`) or failure.
#[derive(Clone, Copy, Debug, PartialEq, Eq, Structural)]
pub struct ChainEvent {
    pub index: usize,
    pub ok: bool,
}

/// The handler indices of a run report, in invocation order.
pub open spec fn indices(t: Seq<ChainEvent>) -> Seq<int> {
    t.map_values(|e: ChainEvent| e.index as int)
}

/// Whether every recorded invocation succeeded.
pub open spec fn all_ok(t: Seq<ChainEvent>) -> bool {
    forall|j: int| 0 <= j < t.len() ==> t[j].ok
}

/// Whether a chain with strategy `s` and report `t` ran to completion:
/// under `Ignore` always, under `Abort` exactly when nothing failed.
pub open spec fn completed(s: ErrorStrategy, t: Seq<ChainEvent>) -> bool {
    s is Ignore || all_ok(t)
}

/// The indices of the handlers in `tags` that the routing rule selects
/// for `u`, in registration order.
pub open spec fn applying(tags: Seq<HandlerTag>, u: Update) -> Seq<int>
    decreases tags.len(),
{
    if tags.len() == 0 {
        Seq::empty()
    } else {
        let pre = applying(tags.drop_last(), u);
        if applies(tags.last(), u) {
            pre.push(tags.len() - 1)
        } else {
            pre
        }
    }
}

/// What a valid run report of one chain looks like: a completed run
/// invoked exactly the applying handlers in registration order; an
/// aborted run (strategy `Abort`, a failure recorded) invoked the
/// applying handlers in order up to and including the first failing one,
/// everything before it succeeding.
pub open spec fn chain_report_valid(
    tags: Seq<HandlerTag>,
    u: Update,
    s: ErrorStrategy,
    t: Seq<ChainEvent>,
) -> bool {
    if s is Ignore || all_ok(t) {
        indices(t) == applying(tags, u)
    } else {
        let last = t.last();
        &&& t.len() >= 1
        &&& !last.ok
        &&& all_ok(t.drop_last())
        &&& last.index < tags.len()
        &&& applies(tags[last.index as int], u)
        &&& indices(t) == applying(tags.take(last.index + 1), u)
    }
}

/// The tags of a sequence of handlers, in registration order.
pub open spec fn handler_tags<M, I, R, C, S, P, U>(
    hs: Seq<Handler<M, I, R, C, S, P, U>>,
) -> Seq<HandlerTag> {
    hs.map_values(|h: Handler<M, I, R, C, S, P, U>| h.tag())
}

/// Selecting one more handler appends its index exactly when it applies.
proof fn lemma_applying_step(tags: Seq<HandlerTag>, u: Update, i: int)
    requires
        0 <= i < tags.len(),
    ensures
        applying(tags.take(i + 1), u) == if applies(tags[i], u) {
            applying(tags.take(i), u).push(i)
        } else {
            applying(tags.take(i), u)
        },
{
    assert(tags.take(i + 1).drop_last() =~= tags.take(i));
    assert(tags.take(i + 1).last() == tags[i]);
}

/// The selection of `applying` is sound and complete: it holds exactly
/// the indices whose tag applies to the update, each exactly once, in
/// strictly increasing (registration) order.
pub proof fn lemma_applying_props(tags: Seq<HandlerTag>, u: Update)
    ensures
        forall|k: int| #[trigger] applying(tags, u).contains(k) <==> (0 <= k < tags.len()
            && applies(tags[k], u)),
        forall|a: int, b: int|
            0 <= a < b < applying(tags, u).len() ==> applying(tags, u)[a] < applying(tags, u)[b],
    decreases tags.len(),
{
    if tags.len() > 0 {
        let pre = applying(tags.drop_last(), u);
        let n = tags.len() - 1;
        lemma_applying_props(tags.drop_last(), u);
        assert(forall|k: int| #[trigger] pre.contains(k) ==> 0 <= k < n);
        if applies(tags.last(), u) {
            let full = pre.push(n);
            assert forall|k: int| #[trigger] full.contains(k) implies (0 <= k < tags.len()
                && applies(tags[k], u)) by {
                let j = choose|j: int| 0 <= j < full.len() && full[j] == k;
                if j < pre.len() {
                    assert(pre.contains(k));
                    assert(tags.drop_last()[k] == tags[k]);
                } else {
                    assert(k == n);
                }
            }
            assert forall|k: int| (0 <= k < tags.len() && applies(tags[k], u)) implies #[trigger]
                full.contains(k) by {
                if k < n {
                    assert(tags.drop_last()[k] == tags[k]);
                    assert(pre.contains(k));
                    let j = choose|j: int| 0 <= j < pre.len() && pre[j] == k;
                    assert(full[j] == k);
                } else {
                    assert(full[full.len() - 1] == k);
                }
            }
            assert forall|a: int, b: int| 0 <= a < b < full.len() implies full[a] < full[b] by {
                if b < pre.len() {
                } else {
                    assert(full[b] == n);
                    assert(pre.contains(pre[a]));
                }
            }
        } else {
            assert forall|k: int| #[trigger] pre.contains(k) implies (0 <= k < tags.len()
                && applies(tags[k], u)) by {
                assert(tags.drop_last()[k] == tags[k]);
            }
            assert forall|k: int| (0 <= k < tags.len() && applies(tags[k], u)) implies #[trigger]
                pre.contains(k) by {
                if k < n {
                    assert(tags.drop_last()[k] == tags[k]);
                } else {
                    assert(applies(tags.last(), u));
                }
            }
        }
    }
}

/// A completed run invokes every matching handler exactly once, in
/// registration order, and no other handler: the report's indices are
/// strictly increasing and hold an index exactly when its handler's kind
/// applies to the update.
pub proof fn lemma_completed_run_invokes_each_matching_once(
    tags: Seq<HandlerTag>,
    u: Update,
    s: ErrorStrategy,
    t: Seq<ChainEvent>,
)
    requires
        chain_report_valid(tags, u, s, t),
        completed(s, t),
    ensures
        forall|k: int| #[trigger] indices(t).contains(k) <==> (0 <= k < tags.len() && applies(
            tags[k],
            u,
        )),
        forall|a: int, b: int| 0 <= a < b < t.len() ==> indices(t)[a] < indices(t)[b],
{
    lemma_applying_props(tags, u);
}

/// For an update of a message-like kind, a message handler registered
/// once in a chain is invoked exactly once by a completed run.
pub proof fn lemma_message_handler_fires_exactly_once(
    tags: Seq<HandlerTag>,
    u: Update,
    s: ErrorStrategy,
    t: Seq<ChainEvent>,
    k: int,
)
    requires
        chain_report_valid(tags, u, s, t),
        completed(s, t),
        0 <= k < tags.len(),
        tags[k] is Message,
        u.kind is Message || u.kind is EditedMessage || u.kind is ChannelPost
            || u.kind is EditedChannelPost,
    ensures
        indices(t).contains(k),
        forall|a: int, b: int|
            0 <= a < t.len() && 0 <= b < t.len() && indices(t)[a] == k && indices(t)[b] == k ==> a
                == b,
{
    lemma_completed_run_invokes_each_matching_once(tags, u, s, t);
    assert(applies(tags[k], u));
    assert forall|a: int, b: int|
        0 <= a < t.len() && 0 <= b < t.len() && indices(t)[a] == k && indices(t)[b] == k implies a
        == b by {
        if a < b {
            assert(indices(t)[a] < indices(t)[b]);
        } else if b < a {
            assert(indices(t)[b] < indices(t)[a]);
        }
    }
}

/// Under `Ignore` a chain always completes: a failure never stops it.
pub proof fn lemma_ignore_always_completes(t: Seq<ChainEvent>)
    ensures
        completed(ErrorStrategy::Ignore, t),
{
}

/// Under `Abort` a chain completes exactly when every invocation
/// succeeded.
pub proof fn lemma_abort_completes_iff_all_ok(t: Seq<ChainEvent>)
    ensures
        completed(ErrorStrategy::Abort, t) == all_ok(t),
{
}

/// Runs one chain over `update`: invokes, in order, each handler whose
/// kind applies, records one event per invocation in `log`, and stops
/// early only when an invocation fails under `Abort`, returning that
/// failure.
fn run_chain<V, M, I, R, C, S, P, U>(
    handlers: &mut Vec<Handler<M, I, R, C, S, P, U>>,
    context: &mut Context<V>,
    update: &Update,
    strategy: ErrorStrategy,
    log: &mut Vec<ChainEvent>,
) -> (r: Result<(), HandlerError>) where
    M: MessageHandler<V>,
    I: InlineQueryHandler<V>,
    R: ChosenInlineResultHandler<V>,
    C: CallbackQueryHandler<V>,
    S: ShippingQueryHandler<V>,
    P: PreCheckoutQueryHandler<V>,
    U: UpdateHandler<V>,

    requires
        update.wf(),
        old(log)@.len() == 0,
    ensures
        handler_tags(final(handlers)@) == handler_tags(old(handlers)@),
        chain_report_valid(handler_tags(old(handlers)@), *update, strategy, final(log)@),
        r is Ok <==> completed(strategy, final(log)@),
{
    let ghost tags = handler_tags(handlers@);
    let n = handlers.len();
    let mut i: usize = 0;
    while i < n
        invariant
            i <= n,
            n == handlers@.len(),
            update.wf(),
            tags == handler_tags(old(handlers)@),
            handler_tags(handlers@) == tags,
            indices(log@) == applying(tags.take(i as int), *update),
            strategy is Abort ==> all_ok(log@),
        decreases n - i,
    {
        let ghost log0 = log@;
        proof {
            assert(tags[i as int] == handlers@[i as int].tag());
            lemma_applying_step(tags, *update, i as int);
        }
        let matched = handlers[i].applies(update);
        if matched {
            let fut = handlers[i].handle(context, update);
            let ok = fut.result.is_ok();
            log.push(ChainEvent { index: i, ok });
            proof {
                assert(indices(log@) =~= indices(log0).push(i as int));
                assert(handler_tags(handlers@) =~= tags);
            }
            if !ok {
                match strategy {
                    ErrorStrategy::Abort => {
                        proof {
                            assert(log@.drop_last() =~= log0);
                            assert(tags.take(i + 1).take(i as int + 1) =~= tags.take(i + 1));
                        }
                        let err = match fut.result {
                            Err(e) => e,
                            Ok(_) => vstd::pervasive::unreached(),
                        };
                        return Err(err);
                    },
                    ErrorStrategy::Ignore => {},
                }
            }
        }
        i = i + 1;
    }
    proof {
        assert(tags.take(n as int) =~= tags);
    }
    Ok(())
}

/// The dispatcher: an ordered pre-chain and an ordered main chain, each
/// with its own error strategy, a shared [`Context`], and the report of
/// the latest run.
pub struct Dispatcher<V, M, I, R, C, S, P, U> {
    /// The pre-chain, in registration order.
    pub pre_handlers: Vec<Handler<M, I, R, C, S, P, U>>,
    /// The main chain, in registration order.
    pub handlers: Vec<Handler<M, I, R, C, S, P, U>>,
    /// The store shared by every handler invocation of a run.
    pub context: Context<V>,
    /// Strategy of the pre-chain.
    pub pre_strategy: ErrorStrategy,
    /// Strategy of the main chain.
    pub main_strategy: ErrorStrategy,
    /// Invocations of the pre-chain during the latest `dispatch` call.
    pub pre_log: Vec<ChainEvent>,
    /// Invocations of the main chain during the latest `dispatch` call.
    pub main_log: Vec<ChainEvent>,
}

impl<V, M, I, R, C, S, P, U> Dispatcher<V, M, I, R, C, S, P, U> where
    M: MessageHandler<V>,
    I: InlineQueryHandler<V>,
    R: ChosenInlineResultHandler<V>,
    C: CallbackQueryHandler<V>,
    S: ShippingQueryHandler<V>,
    P: PreCheckoutQueryHandler<V>,
    U: UpdateHandler<V>,
 {
    /// Tags of the pre-chain handlers, in registration order.
    pub open spec fn pre_tags(&self) -> Seq<HandlerTag> {
        handler_tags(self.pre_handlers@)
    }

    /// Tags of the main-chain handlers, in registration order.
    pub open spec fn main_tags(&self) -> Seq<HandlerTag> {
        handler_tags(self.handlers@)
    }

    /// Builds a dispatcher from the ordered pre-chain, the ordered main
    /// chain, the initial context, and the two error strategies. The
    /// chains cannot be changed afterwards; a host that needs different
    /// chains builds a new dispatcher.
    pub fn new(
        pre_handlers: Vec<Handler<M, I, R, C, S, P, U>>,
        handlers: Vec<Handler<M, I, R, C, S, P, U>>,
        context: Context<V>,
        pre_strategy: ErrorStrategy,
        main_strategy: ErrorStrategy,
    ) -> (r: Self)
        ensures
            r.pre_tags() == handler_tags(pre_handlers@),
            r.main_tags() == handler_tags(handlers@),
            r.context == context,
            r.pre_strategy == pre_strategy,
            r.main_strategy == main_strategy,
            r.pre_log@.len() == 0,
            r.main_log@.len() == 0,
    {
        Dispatcher {
            pre_handlers,
            handlers,
            context,
            pre_strategy,
            main_strategy,
            pre_log: Vec::new(),
            main_log: Vec::new(),
        }
    }

    /// Dispatches one update: runs the pre-chain in registration order
    /// under its strategy and, unless the pre-chain aborted, the main
    /// chain under its own. Returns success when no chain aborted, else
    /// the first aborting failure. Side effects of handlers that already
    /// ran are not undone. The run's invocations are left in `pre_log`
    /// and `main_log`.
    pub fn dispatch(&mut self, update: Update) -> (r: Result<(), HandlerError>)
        requires
            update.wf(),
        ensures
            final(self).pre_tags() == old(self).pre_tags(),
            final(self).main_tags() == old(self).main_tags(),
            final(self).pre_strategy == old(self).pre_strategy,
            final(self).main_strategy == old(self).main_strategy,
            chain_report_valid(
                old(self).pre_tags(),
                update,
                old(self).pre_strategy,
                final(self).pre_log@,
            ),
            completed(old(self).pre_strategy, final(self).pre_log@) ==> chain_report_valid(
                old(self).main_tags(),
                update,
                old(self).main_strategy,
                final(self).main_log@,
            ),
            !completed(old(self).pre_strategy, final(self).pre_log@)
                ==> final(self).main_log@.len() == 0,
            r is Ok <==> completed(old(self).pre_strategy, final(self).pre_log@) && completed(
                old(self).main_strategy,
                final(self).main_log@,
            ),
    {
        self.pre_log = Vec::new();
        self.main_log = Vec::new();
        let pre_result = run_chain(
            &mut self.pre_handlers,
            &mut self.context,
            &update,
            self.pre_strategy,
            &mut self.pre_log,
        );
        match pre_result {
            Err(e) => Err(e),
            Ok(_) => run_chain(
                &mut self.handlers,
                &mut self.context,
                &update,
                self.main_strategy,
                &mut self.main_log,
            ),
        }
    }
}

} // verus!

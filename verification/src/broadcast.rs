//! The message broadcaster: a snapshot of recipients with at most one
//! designated initiator.
//!
//! A broadcast is a pure function of the snapshot: the initiator receives
//! the reply tagged with its task id, every other recipient an untagged
//! copy, and nobody else anything.  A plan is the list of (client, message)
//! pairs to enqueue, in order; `sends_to` projects out one client's
//! messages.

use vstd::prelude::*;

use crate::config::Config;
use crate::config::ConfigView;
use crate::error::SerdeError;
use crate::error::SerdeErrorView;
use crate::ids::OperationId;
use crate::ids::TaskId;
use crate::messages::Operation;
use crate::messages::S2cView;
use crate::messages::ServerToClientMessage;
use crate::registry::ClientId;

verus! {

/// The messages a plan sends to one client, in order.
pub open spec fn sends_to(plan: Seq<(ClientId, ServerToClientMessage)>, c: ClientId) -> Seq<
    S2cView,
>
    decreases plan.len(),
{
    if plan.len() == 0 {
        Seq::empty()
    } else {
        (if plan[0].0 == c {
            seq![plan[0].1@]
        } else {
            Seq::empty()
        }) + sends_to(plan.drop_first(), c)
    }
}

/// Appending one send extends exactly its recipient's sequence.
pub proof fn lemma_sends_to_push(
    plan: Seq<(ClientId, ServerToClientMessage)>,
    x: (ClientId, ServerToClientMessage),
    c: ClientId,
)
    ensures
        sends_to(plan.push(x), c) == sends_to(plan, c) + (if x.0 == c {
            seq![x.1@]
        } else {
            Seq::<S2cView>::empty()
        }),
    decreases plan.len(),
{
    if plan.len() == 0 {
        assert(plan.push(x).drop_first() =~= plan);
        assert(sends_to(plan.push(x), c) =~= sends_to(plan, c) + (if x.0 == c {
            seq![x.1@]
        } else {
            Seq::<S2cView>::empty()
        }));
    } else {
        lemma_sends_to_push(plan.drop_first(), x, c);
        assert(plan.push(x).drop_first() =~= plan.drop_first().push(x));
        assert(sends_to(plan.push(x), c) =~= sends_to(plan, c) + (if x.0 == c {
            seq![x.1@]
        } else {
            Seq::<S2cView>::empty()
        }));
    }
}

/// A plan's sends distribute over concatenation.
pub proof fn lemma_sends_to_concat(
    a: Seq<(ClientId, ServerToClientMessage)>,
    b: Seq<(ClientId, ServerToClientMessage)>,
    c: ClientId,
)
    ensures
        sends_to(a + b, c) == sends_to(a, c) + sends_to(b, c),
    decreases a.len(),
{
    if a.len() == 0 {
        assert(a + b =~= b);
        assert(sends_to(a, c) + sends_to(b, c) =~= sends_to(b, c));
    } else {
        lemma_sends_to_concat(a.drop_first(), b, c);
        assert((a + b).drop_first() =~= a.drop_first() + b);
        assert(sends_to(a + b, c) =~= sends_to(a, c) + sends_to(b, c));
    }
}

/// A reply that is broadcast once per client, tagged for the initiator.
#[derive(Debug)]
pub enum ReplyTemplate {
    ConfigUpdated(Config),
    OperationPerformed(Operation, OperationId),
    OperationFailed(Operation, OperationId, SerdeError),
}

/// The mathematical value of a `ReplyTemplate`.
pub enum ReplyTemplateView {
    ConfigUpdated(ConfigView),
    OperationPerformed(Operation, OperationId),
    OperationFailed(Operation, OperationId, SerdeErrorView),
}

impl View for ReplyTemplate {
    type V = ReplyTemplateView;

    open spec fn view(&self) -> ReplyTemplateView {
        match self {
            ReplyTemplate::ConfigUpdated(c) => ReplyTemplateView::ConfigUpdated(c@),
            ReplyTemplate::OperationPerformed(op, oid) => ReplyTemplateView::OperationPerformed(
                *op,
                *oid,
            ),
            ReplyTemplate::OperationFailed(op, oid, e) => ReplyTemplateView::OperationFailed(
                *op,
                *oid,
                e@,
            ),
        }
    }
}

/// The message a template produces for a given tag.
pub open spec fn spec_reply(tmpl: ReplyTemplateView, t: Option<TaskId>) -> S2cView {
    match tmpl {
        ReplyTemplateView::ConfigUpdated(c) => S2cView::ConfigUpdated(c, t),
        ReplyTemplateView::OperationPerformed(op, oid) => S2cView::OperationPerformed(op, oid, t),
        ReplyTemplateView::OperationFailed(op, oid, e) => S2cView::OperationFailed(op, oid, e, t),
    }
}

impl ReplyTemplate {
    /// Builds the message this template stands for, with the given tag.
    pub fn instantiate(&self, t: Option<TaskId>) -> (m: ServerToClientMessage)
        ensures
            m@ == spec_reply(self@, t),
    {
        match self {
            ReplyTemplate::ConfigUpdated(c) => ServerToClientMessage::ConfigUpdated(c.clone(), t),
            ReplyTemplate::OperationPerformed(op, oid) => {
                ServerToClientMessage::OperationPerformed(*op, *oid, t)
            },
            ReplyTemplate::OperationFailed(op, oid, e) => {
                ServerToClientMessage::OperationFailed(*op, *oid, e.clone(), t)
            },
        }
    }
}

/// A snapshot of the connected clients at dispatch time: the initiator of
/// the request, where it was still connected, and everyone else.
pub struct MessageBroadcaster {
    pub initiator: Option<(ClientId, TaskId)>,
    pub others: Vec<ClientId>,
}

/// What one client receives from a tagged broadcast.
pub open spec fn expected_reply_sends(
    init: Option<(ClientId, TaskId)>,
    others: Seq<ClientId>,
    tmpl: ReplyTemplateView,
    d: ClientId,
) -> Seq<S2cView> {
    match init {
        Some(p) => if d == p.0 {
            seq![spec_reply(tmpl, Some(p.1))]
        } else if others.contains(d) {
            seq![spec_reply(tmpl, None)]
        } else {
            Seq::empty()
        },
        None => if others.contains(d) {
            seq![spec_reply(tmpl, None)]
        } else {
            Seq::empty()
        },
    }
}

/// What one client receives from an untagged broadcast to the snapshot.
pub open spec fn expected_plain_sends(
    init: Option<(ClientId, TaskId)>,
    others: Seq<ClientId>,
    m: S2cView,
    d: ClientId,
) -> Seq<S2cView> {
    if (match init {
        Some(p) => d == p.0,
        None => false,
    }) || others.contains(d) {
        seq![m]
    } else {
        Seq::empty()
    }
}

impl MessageBroadcaster {
    /// The snapshot names each client once.
    pub open spec fn wf(self) -> bool {
        &&& forall|i: int, j: int|
            0 <= i < j < self.others@.len() ==> self.others@[i] != self.others@[j]
        &&& match self.initiator {
            Some(p) => !self.others@.contains(p.0),
            None => true,
        }
    }

    /// Sends a tagged copy of the reply to the initiator and an untagged
    /// copy to every other client of the snapshot, each exactly once.
    pub fn broadcast_with_task_id(&self, template: &ReplyTemplate) -> (plan: Vec<
        (ClientId, ServerToClientMessage),
    >)
        requires
            self.wf(),
        ensures
            forall|d: ClientId|
                #[trigger] sends_to(plan@, d) == expected_reply_sends(
                    self.initiator,
                    self.others@,
                    template@,
                    d,
                ),
    {
        let mut plan: Vec<(ClientId, ServerToClientMessage)> = Vec::new();
        if let Some((c, t)) = self.initiator {
            let m = template.instantiate(Some(t));
            let ghost before = plan@;
            plan.push((c, m));
            proof {
                assert forall|d: ClientId| #[trigger] sends_to(plan@, d) == (if d == c {
                    seq![spec_reply(template@, Some(t))]
                } else {
                    Seq::<S2cView>::empty()
                }) by {
                    lemma_sends_to_push(before, (c, m), d);
                    assert(sends_to(before, d) =~= Seq::<S2cView>::empty());
                    if d == c {
                        assert(sends_to(plan@, d) =~= seq![spec_reply(template@, Some(t))]);
                    } else {
                        assert(sends_to(plan@, d) =~= Seq::<S2cView>::empty());
                    }
                }
            }
        }
        let mut i: usize = 0;
        while i < self.others.len()
            invariant
                self.wf(),
                i <= self.others@.len(),
                forall|d: ClientId|
                    #[trigger] sends_to(plan@, d) == expected_reply_sends(
                        self.initiator,
                        self.others@.subrange(0, i as int),
                        template@,
                        d,
                    ),
            decreases self.others@.len() - i,
        {
            let c = self.others[i];
            let m = template.instantiate(None);
            let ghost before = plan@;
            plan.push((c, m));
            proof {
                assert forall|d: ClientId|
                    #[trigger] sends_to(plan@, d) == expected_reply_sends(
                        self.initiator,
                        self.others@.subrange(0, i as int + 1),
                        template@,
                        d,
                    ) by {
                    lemma_sends_to_push(before, (c, m), d);
                    assert(self.others@.subrange(0, i as int + 1) =~= self.others@.subrange(
                        0,
                        i as int,
                    ).push(c));
                    if d == c {
                        assert(!self.others@.subrange(0, i as int).contains(d));
                        assert(match self.initiator {
                            Some(p) => d != p.0,
                            None => true,
                        });
                        assert(sends_to(plan@, d) =~= seq![spec_reply(template@, None)]);
                        assert(self.others@.subrange(0, i as int + 1)[i as int] == d);
                        assert(self.others@.subrange(0, i as int + 1).contains(d));
                    } else {
                        assert(sends_to(plan@, d) =~= sends_to(before, d));
                        assert(self.others@.subrange(0, i as int + 1).contains(d)
                            == self.others@.subrange(0, i as int).contains(d));
                    }
                }
            }
            i = i + 1;
        }
        proof {
            assert(self.others@.subrange(0, self.others@.len() as int) =~= self.others@);
        }
        plan
    }

    /// Sends one copy of the same message to every client of the snapshot,
    /// the initiator included.
    pub fn broadcast(&self, message: &ServerToClientMessage) -> (plan: Vec<
        (ClientId, ServerToClientMessage),
    >)
        requires
            self.wf(),
        ensures
            forall|d: ClientId|
                #[trigger] sends_to(plan@, d) == expected_plain_sends(
                    self.initiator,
                    self.others@,
                    message@,
                    d,
                ),
    {
        let mut plan: Vec<(ClientId, ServerToClientMessage)> = Vec::new();
        if let Some((c, _t)) = self.initiator {
            let m = message.clone();
            let ghost before = plan@;
            plan.push((c, m));
            proof {
                assert forall|d: ClientId| #[trigger] sends_to(plan@, d) == (if d == c {
                    seq![message@]
                } else {
                    Seq::<S2cView>::empty()
                }) by {
                    lemma_sends_to_push(before, (c, m), d);
                    assert(sends_to(before, d) =~= Seq::<S2cView>::empty());
                    if d == c {
                        assert(sends_to(plan@, d) =~= seq![message@]);
                    } else {
                        assert(sends_to(plan@, d) =~= Seq::<S2cView>::empty());
                    }
                }
            }
        }
        let mut i: usize = 0;
        while i < self.others.len()
            invariant
                self.wf(),
                i <= self.others@.len(),
                forall|d: ClientId|
                    #[trigger] sends_to(plan@, d) == expected_plain_sends(
                        self.initiator,
                        self.others@.subrange(0, i as int),
                        message@,
                        d,
                    ),
            decreases self.others@.len() - i,
        {
            let c = self.others[i];
            let m = message.clone();
            let ghost before = plan@;
            plan.push((c, m));
            proof {
                assert forall|d: ClientId|
                    #[trigger] sends_to(plan@, d) == expected_plain_sends(
                        self.initiator,
                        self.others@.subrange(0, i as int + 1),
                        message@,
                        d,
                    ) by {
                    lemma_sends_to_push(before, (c, m), d);
                    assert(self.others@.subrange(0, i as int + 1) =~= self.others@.subrange(
                        0,
                        i as int,
                    ).push(c));
                    if d == c {
                        assert(!self.others@.subrange(0, i as int).contains(d));
                        assert(match self.initiator {
                            Some(p) => d != p.0,
                            None => true,
                        });
                        assert(sends_to(plan@, d) =~= seq![message@]);
                        assert(self.others@.subrange(0, i as int + 1)[i as int] == d);
                        assert(self.others@.subrange(0, i as int + 1).contains(d));
                    } else {
                        assert(sends_to(plan@, d) =~= sends_to(before, d));
                        assert(self.others@.subrange(0, i as int + 1).contains(d)
                            == self.others@.subrange(0, i as int).contains(d));
                    }
                }
            }
            i = i + 1;
        }
        proof {
            assert(self.others@.subrange(0, self.others@.len() as int) =~= self.others@);
        }
        plan
    }
}

} // verus!

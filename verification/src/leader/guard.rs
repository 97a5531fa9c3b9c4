//! What a leader holds while it leads, and how leadership ends.
//!
//! A [`LeaderGuard`] decides; it answers each call with the [`Effect`]s to perform, in
//! order. The order matters: whoever asks a [`LeaderState`] sees that we no longer lead
//! before whoever waits for the loss is woken.
use crate::error::{seen, KubeError};
use crate::leader::lease::Lease;
use crate::leader::release::{clear_holder, release_step, ReleaseSent};
use crate::leader::renewal::StepDownReason;
use crate::leader::request::Step;
use vstd::prelude::*;

verus! {

/// Something to do about the leadership.
#[derive(Clone, Copy, Debug, PartialEq, Eq, Structural)]
pub enum Effect {
    /// Make every [`LeaderState`] say that we lead, or that we do not.
    SetLeader(bool),
    /// Stop renewing the lease.
    AbortRenewal,
    /// Wake whoever waits for the loss of the leadership, with the reason for it.
    SignalLost(StepDownReason),
    /// Give the lease up, so that the next replica need not wait for it to expire. If
    /// that fails, the lease expires by itself.
    ReleaseLease,
}

impl Effect {
    /// What every [`LeaderState`] says once this effect is performed, if it said `leading`
    /// before.
    pub open spec fn leads_after(self, leading: bool) -> bool {
        match self {
            Effect::SetLeader(leader) => leader,
            _ => leading,
        }
    }
}

/// What can be seen of a leadership from outside.
pub ghost struct Leadership {
    /// What every [`LeaderState`] says.
    pub leader: bool,
    /// Whether nobody has stopped the renewal of the lease from outside.
    pub renewing: bool,
    /// The reason that whoever waited for the loss was woken with.
    pub lost: Option<StepDownReason>,
}

impl Leadership {
    /// What is seen of a replica that has not acquired the lease yet.
    pub open spec fn standby() -> Leadership {
        Leadership { leader: false, renewing: true, lost: None }
    }

    /// What is seen once `effect` is performed.
    pub open spec fn perform(self, effect: Effect) -> Leadership {
        Leadership {
            leader: effect.leads_after(self.leader),
            renewing: self.renewing && effect != Effect::AbortRenewal,
            lost: match effect {
                Effect::SignalLost(reason) => Some(reason),
                _ => self.lost,
            },
        }
    }

    /// What is seen once all `effects` are performed, the first one first.
    pub open spec fn perform_all(self, effects: Seq<Effect>) -> Leadership
        decreases effects.len(),
    {
        if effects.len() == 0 {
            self
        } else {
            self.perform_all(effects.drop_last()).perform(effects.last())
        }
    }
}

/// Whether this replica leads, for readiness probes and the like.
#[derive(Clone, Copy, Debug, PartialEq, Eq, Structural)]
pub struct LeaderState {
    leader: bool,
}

impl View for LeaderState {
    type V = bool;

    closed spec fn view(&self) -> bool {
        self.leader
    }
}

impl LeaderState {
    /// The state of a replica that does not lead.
    pub fn standby() -> (state: LeaderState)
        ensures
            !state@,
    {
        LeaderState { leader: false }
    }

    /// Whether this replica leads.
    pub fn is_leader(&self) -> (leader: bool)
        ensures
            leader == self@,
    {
        self.leader
    }

    /// Takes note of `effect`. Only [`Effect::SetLeader`] changes what a state says.
    pub fn perform(&mut self, effect: Effect)
        ensures
            final(self)@ == effect.leads_after(old(self)@),
    {
        match effect {
            Effect::SetLeader(leader) => {
                self.leader = leader;
            },
            _ => {},
        }
    }
}

/// What a leader holds while it leads.
#[derive(Debug)]
pub struct LeaderGuard {
    name: String,
    identity: String,
    renewing: bool,
    lost: Option<StepDownReason>,
}

/// The view of a [`LeaderGuard`].
#[verifier::ext_equal]
pub ghost struct GuardView {
    /// The name of the lease.
    pub name: Seq<char>,
    /// Who holds the lease.
    pub identity: Seq<char>,
    /// Whether the guard has not yet stepped down or been dropped.
    pub renewing: bool,
    /// Why we no longer lead.
    pub lost: Option<StepDownReason>,
}

impl View for LeaderGuard {
    type V = GuardView;

    closed spec fn view(&self) -> GuardView {
        GuardView {
            name: self.name@,
            identity: self.identity@,
            renewing: self.renewing,
            lost: self.lost,
        }
    }
}

impl GuardView {
    /// The guard of `identity`, who has just acquired the lease `name`.
    pub open spec fn acquired(name: Seq<char>, identity: Seq<char>) -> GuardView {
        GuardView { name, identity, renewing: true, lost: None }
    }

    /// A guard that is still held goes with a leadership, or with the reason for its end.
    pub open spec fn valid(self) -> bool {
        self.renewing || self.lost is Some
    }

    /// What can be seen of the leadership from outside.
    pub open spec fn leadership(self) -> Leadership {
        Leadership { leader: self.lost is None, renewing: self.renewing, lost: self.lost }
    }

    /// The guard after the leadership ends for `reason`, unless it has ended before.
    pub open spec fn ended(self, reason: StepDownReason) -> GuardView {
        GuardView {
            lost: match self.lost {
                Some(earlier) => Some(earlier),
                None => Some(reason),
            },
            ..self
        }
    }

    /// The guard after it lets go of the renewal.
    pub open spec fn let_go(self) -> GuardView {
        if self.renewing {
            GuardView { renewing: false, ..self.ended(StepDownReason::Cancelled) }
        } else {
            self
        }
    }

    /// The effects of the renewal loop's end.
    pub open spec fn stop_effects(self, reason: StepDownReason) -> Seq<Effect> {
        if self.lost is None {
            seq![Effect::SetLeader(false), Effect::SignalLost(reason)]
        } else {
            Seq::empty()
        }
    }

    /// The effects of stepping down, or of dropping the guard.
    pub open spec fn step_down_effects(self) -> Seq<Effect> {
        if !self.renewing {
            Seq::empty()
        } else if self.lost is None {
            seq![
                Effect::SetLeader(false),
                Effect::AbortRenewal,
                Effect::SignalLost(StepDownReason::Cancelled),
                Effect::ReleaseLease,
            ]
        } else {
            seq![Effect::AbortRenewal, Effect::ReleaseLease]
        }
    }
}

impl LeaderGuard {
    #[verifier::type_invariant]
    spec fn held(self) -> bool {
        self@.valid()
    }

    /// The guard of `identity`, who has just acquired the lease `name`, and the effects of
    /// that.
    pub fn acquired(name: &str, identity: &str) -> (started: (LeaderGuard, Vec<Effect>))
        ensures
            started.0@ == GuardView::acquired(name@, identity@),
            started.1@ == seq![Effect::SetLeader(true)],
    {
        let guard = LeaderGuard {
            name: name.to_owned(),
            identity: identity.to_owned(),
            renewing: true,
            lost: None,
        };
        (guard, vec![Effect::SetLeader(true)])
    }

    /// Whether we still lead.
    pub fn is_leader(&self) -> (leader: bool)
        ensures
            leader == self@.leadership().leader,
            self@.valid(),
    {
        proof {
            use_type_invariant(self);
        }
        self.lost.is_none()
    }

    /// Why we no longer lead, if so. Once it is there, the reason stays.
    pub fn lost(&self) -> (reason: Option<StepDownReason>)
        ensures
            reason == self@.lost,
            reason is Some <==> !self@.leadership().leader,
    {
        self.lost
    }

    /// Takes note that the renewal loop has ended for `reason`, and says what to do. A
    /// leadership ends only once: a later end changes nothing.
    pub fn renewal_stopped(&mut self, reason: StepDownReason) -> (effects: Vec<Effect>)
        ensures
            final(self)@ == old(self)@.ended(reason),
            effects@ == old(self)@.stop_effects(reason),
    {
        if self.lost.is_none() {
            self.lost = Some(reason);
            vec![Effect::SetLeader(false), Effect::SignalLost(reason)]
        } else {
            Vec::new()
        }
    }

    /// Steps down, and says what to do: end the leadership, unless it has ended before, let
    /// go of the renewal, and give the lease up, so that the next replica takes over at once.
    /// Stepping down again does nothing.
    pub fn step_down(&mut self) -> (effects: Vec<Effect>)
        ensures
            final(self)@ == old(self)@.let_go(),
            !final(self)@.leadership().leader,
            effects@ == old(self)@.step_down_effects(),
    {
        proof {
            use_type_invariant(&*self);
        }
        let mut effects: Vec<Effect> = Vec::new();
        if self.renewing {
            let leading = self.lost.is_none();
            if leading {
                effects.push(Effect::SetLeader(false));
                self.lost = Some(StepDownReason::Cancelled);
            }
            effects.push(Effect::AbortRenewal);
            self.renewing = false;
            if leading {
                effects.push(Effect::SignalLost(StepDownReason::Cancelled));
            }
            effects.push(Effect::ReleaseLease);
        }
        effects
    }

    /// Takes note that the guard is dropped, and says what to do: what stepping down takes,
    /// if the guard has not done so before.
    pub fn dropped(&mut self) -> (effects: Vec<Effect>)
        ensures
            final(self)@ == old(self)@.let_go(),
            !final(self)@.leadership().leader,
            effects@ == old(self)@.step_down_effects(),
    {
        self.step_down()
    }

    /// What comes after the answer to the read of the lease, which is being given up.
    pub fn release(&self, reply: Result<Lease, KubeError>) -> (step: Step<(), ReleaseSent>)
        ensures
            step@ == release_step(self@.name, self@.identity, seen(reply)),
    {
        clear_holder(self.name.as_str(), self.identity.as_str(), reply)
    }
}

} // verus!

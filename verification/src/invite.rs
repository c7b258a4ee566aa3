//! The schedule on which accepting an invitation is tried again: after each
//! failure a pause twice as long as the one before, until the pauses have
//! grown past an hour.

use vstd::prelude::*;

verus! {

/// The first pause, in seconds.
pub const FIRST_DELAY: u64 = 2;

/// The longest pause after which another attempt is made, in seconds.
pub const MAX_DELAY: u64 = 3600;

/// What follows an attempt to accept an invitation.
#[derive(Debug, Clone, Copy, PartialEq, Eq, Structural)]
pub enum RetryStep {
    /// Nothing more: the invitation was accepted, or given up before.
    Stop,
    /// A pause of `seconds`, and then another attempt if `again` is set.
    Wait { seconds: u64, again: bool },
}

/// The pause that follows the failure number `failures`, counted from 0, in
/// seconds.
pub open spec fn delay_after(failures: nat) -> nat
    decreases failures,
{
    if failures == 0 {
        FIRST_DELAY as nat
    } else {
        2 * delay_after((failures - 1) as nat)
    }
}

/// The pauses of the first `failures` failures together, in seconds.
pub open spec fn total_wait(failures: nat) -> nat
    decreases failures,
{
    if failures == 0 {
        0
    } else {
        total_wait((failures - 1) as nat) + delay_after((failures - 1) as nat)
    }
}

/// What follows an attempt when the next pause would be `delay` seconds.
pub open spec fn step_after(delay: u64, accepted: bool) -> RetryStep {
    if accepted || delay > MAX_DELAY {
        RetryStep::Stop
    } else {
        RetryStep::Wait { seconds: delay, again: 2 * delay <= MAX_DELAY }
    }
}

/// The pause that comes next once an attempt has been answered.
pub open spec fn delay_after_step(delay: u64, accepted: bool) -> u64 {
    if accepted || delay > MAX_DELAY {
        delay
    } else {
        (2 * delay) as u64
    }
}

/// The state of the attempts to accept one invitation.
pub struct InviteRetry {
    delay: u64,
}

impl InviteRetry {
    /// The pause that the next failure is followed by, in seconds.
    pub closed spec fn delay(&self) -> u64 {
        self.delay
    }

    /// The state before the first attempt.
    pub fn new() -> (r: InviteRetry)
        ensures
            r.delay() == FIRST_DELAY,
    {
        InviteRetry { delay: FIRST_DELAY }
    }

    /// Takes note of how an attempt ended and says what follows: nothing
    /// after success; after a failure a pause, twice as long each time, and
    /// another attempt unless the pause after that would be longer than an
    /// hour.
    pub fn after_attempt(&mut self, accepted: bool) -> (r: RetryStep)
        ensures
            r == step_after(old(self).delay(), accepted),
            final(self).delay() == delay_after_step(old(self).delay(), accepted),
    {
        if accepted || self.delay > MAX_DELAY {
            RetryStep::Stop
        } else {
            let seconds: u64 = self.delay;
            self.delay = 2 * seconds;
            RetryStep::Wait { seconds, again: self.delay <= MAX_DELAY }
        }
    }
}

/// The pause after the failure number `failures`, as long as attempts are
/// still made: what the state holds after that many failures in a row.
pub open spec fn delay_in_state(failures: nat) -> u64
    decreases failures,
{
    if failures == 0 {
        FIRST_DELAY
    } else {
        delay_after_step(delay_in_state((failures - 1) as nat), false)
    }
}

/// An invitation that is never accepted is tried eleven times. The pauses
/// double from 2 seconds to 2048 seconds, add up to 4094 seconds, and the
/// eleventh failure is the first after which no attempt follows.
pub proof fn lemma_schedule(failures: nat)
    requires
        failures <= 10,
    ensures
        delay_in_state(failures) == delay_after(failures),
        delay_after(failures) <= 2048,
        step_after(delay_in_state(failures), false) == (RetryStep::Wait {
            seconds: delay_after(failures) as u64,
            again: failures < 10,
        }),
        step_after(delay_in_state(failures), true) == RetryStep::Stop,
        delay_after(10) == 2048,
        total_wait(11) == 4094,
        step_after(delay_in_state(11), false) == RetryStep::Stop,
    decreases failures,
{
    reveal_with_fuel(delay_after, 12);
    reveal_with_fuel(total_wait, 12);
    reveal_with_fuel(delay_in_state, 12);
    if failures > 0 {
        lemma_schedule((failures - 1) as nat);
    }
}

} // verus!

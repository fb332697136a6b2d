//! The shopping phase: a countdown that every client is told of, and the
//! step into battle when it ends.

use vstd::prelude::*;
use crate::network::{Dest, Pack};
use crate::server::{Server, ServerPacket};
use crate::server_messages::{ServerMessage, ShoppingServerMessage, TimerInfo};
use crate::states::ServerState;
use crate::timer::TimerState;

verus! {

/// The message that tells every client how far the shopping countdown
/// has run.
pub open spec fn shopping_timer_pack(timer: TimerState) -> ServerPacket {
    Pack {
        msg: ServerMessage::Shopping(
            ShoppingServerMessage::Timer(
                TimerInfo { duration: timer.duration as u64, elapsed: timer.elapsed as u64 },
            ),
        ),
        dest: Dest::All,
    }
}

impl Server {
    /// What `update_timer` does to the session `before`: in the shopping
    /// phase the countdown has advanced by `delta_nanos` and every client
    /// has been told how far it has run; in another phase nothing has
    /// changed.
    pub open(crate) spec fn update_timer_result(self, before: Server, delta_nanos: u64) -> bool {
        if before.phase() == ServerState::Shopping {
            &&& self == Server {
                shopping_timer: self.shopping_timer,
                packets: self.packets,
                ..before
            }
            &&& self.shopping() == before.shopping().ticked(delta_nanos as nat)
            &&& self.outbox() == before.outbox().push(shopping_timer_pack(self.shopping()))
        } else {
            self == before
        }
    }

    /// Advances the shopping countdown by `delta_nanos` nanoseconds.
    pub fn update_timer(&mut self, delta_nanos: u64)
        requires
            old(self).wf(),
        ensures
            final(self).wf(),
            final(self).update_timer_result(*old(self), delta_nanos),
    {
        if self.state != ServerState::Shopping {
            return ;
        }
        self.shopping_timer.timer.tick(delta_nanos);
        let timer_info = TimerInfo {
            duration: self.shopping_timer.timer.duration(),
            elapsed: self.shopping_timer.timer.elapsed(),
        };
        self.packets.push(
            Pack::all(ServerMessage::Shopping(ShoppingServerMessage::Timer(timer_info))),
        );
    }

    /// What `check_timer` does to the session `before` and answers: once
    /// the shopping countdown has finished, the battle has been entered;
    /// before that, and in another phase, nothing has changed.
    pub open(crate) spec fn check_timer_result(self, before: Server, stepped: bool) -> bool {
        &&& stepped == (before.phase() == ServerState::Shopping && before.shopping().finished)
        &&& if stepped {
            self.battle_entered(before)
        } else {
            self == before
        }
    }

    /// Steps from shopping into battle once the countdown has finished.
    /// Answers whether the step was made.
    pub fn check_timer(&mut self) -> (stepped: bool)
        requires
            old(self).wf(),
        ensures
            final(self).wf(),
            final(self).check_timer_result(*old(self), stepped),
    {
        if self.state != ServerState::Shopping {
            return false;
        }
        if !self.shopping_timer.timer.finished() {
            return false;
        }
        self.enter_battle();
        true
    }
}

} // verus!

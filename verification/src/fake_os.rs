//! A scripted stand-in for the operating-system layer: each capability hands
//! out pre-arranged results in order and counts its calls. It lets every
//! strategy and the whole engine be exercised in isolation, with no real OS
//! behind it.

use vstd::prelude::*;

use crate::enforce::LocaleOps;
use crate::hot_key::HotkeyOs;

verus! {

/// Count one call, holding at the maximum rather than wrapping.
fn count_call(c: u32) -> (r: u32)
    ensures
        r == if c < u32::MAX {
            c + 1
        } else {
            c as int
        },
{
    if c < u32::MAX {
        c + 1
    } else {
        c
    }
}

/// How often each locale capability was called.
#[derive(Clone, Copy, Debug, PartialEq, Eq, Structural, Default)]
pub struct LocaleCallCounts {
    /// Calls of the session-wide activation.
    pub activate_session_wide: u32,
    /// Calls of the input-locale change broadcast.
    pub broadcast_lang_change_request: u32,
    /// Calls of the load-then-activate fallback.
    pub load_then_activate: u32,
    /// Calls of the settings-changed broadcast.
    pub broadcast_setting_change: u32,
    /// Calls of the process-name resolution.
    pub resolve_owning_process_name: u32,
    /// Calls of the active-locale read.
    pub read_active_lang_id: u32,
    /// Calls of the settle delay.
    pub settle_delay: u32,
}

/// A locale layer that replays scripted results. Every script is consumed
/// from the front; an exhausted script hands out a failure, no name, or the
/// language identifier zero.
#[derive(Debug)]
pub struct ScriptedLocaleOps {
    /// Results for the session-wide activation.
    pub activate_results: Vec<bool>,
    /// Results for the input-locale change broadcast.
    pub broadcast_results: Vec<bool>,
    /// Results for the load-then-activate fallback.
    pub load_activate_results: Vec<bool>,
    /// Results for the settings-changed broadcast.
    pub setting_results: Vec<bool>,
    /// Names handed out by the process-name resolution.
    pub process_names: Vec<Option<String>>,
    /// Language identifiers handed out by the active-locale read.
    pub lang_reads: Vec<u16>,
    /// How often each capability was called.
    pub calls: LocaleCallCounts,
}

/// Take the next scripted boolean, or false once the script is exhausted.
fn take_bool(script: &mut Vec<bool>) -> (r: bool)
    ensures
        old(script)@.len() > 0 ==> r == old(script)@[0] && final(script)@ == old(
            script,
        )@.drop_first(),
        old(script)@.len() == 0 ==> r == false && final(script)@ == old(script)@,
{
    if script.len() > 0 {
        script.remove(0)
    } else {
        false
    }
}

impl LocaleOps for ScriptedLocaleOps {
    fn activate_session_wide(&mut self, target_lang_id: u16) -> bool {
        self.calls.activate_session_wide = count_call(self.calls.activate_session_wide);
        take_bool(&mut self.activate_results)
    }

    fn broadcast_lang_change_request(&mut self, target_lang_id: u16) -> bool {
        self.calls.broadcast_lang_change_request = count_call(
            self.calls.broadcast_lang_change_request,
        );
        take_bool(&mut self.broadcast_results)
    }

    fn load_then_activate(&mut self, target_lang_id: u16) -> bool {
        self.calls.load_then_activate = count_call(self.calls.load_then_activate);
        take_bool(&mut self.load_activate_results)
    }

    fn broadcast_setting_change(&mut self) -> bool {
        self.calls.broadcast_setting_change = count_call(self.calls.broadcast_setting_change);
        take_bool(&mut self.setting_results)
    }

    fn resolve_owning_process_name(&mut self) -> Option<String> {
        self.calls.resolve_owning_process_name = count_call(
            self.calls.resolve_owning_process_name,
        );
        if self.process_names.len() > 0 {
            self.process_names.remove(0)
        } else {
            None
        }
    }

    fn read_active_lang_id(&mut self) -> u16 {
        self.calls.read_active_lang_id = count_call(self.calls.read_active_lang_id);
        if self.lang_reads.len() > 0 {
            self.lang_reads.remove(0)
        } else {
            0
        }
    }

    fn settle_delay(&mut self) {
        self.calls.settle_delay = count_call(self.calls.settle_delay);
    }
}

/// A hotkey table that replays scripted refusals and tracks what is
/// registered. For each registration call the script yields an OS error code,
/// zero meaning acceptance; an exhausted script accepts.
#[derive(Debug)]
pub struct ScriptedHotkeyOs {
    /// The error code for each registration call in order; zero accepts.
    pub register_script: Vec<u32>,
    /// The ids currently held in the fake hotkey table.
    pub registered_ids: Vec<i32>,
    /// How many registration calls were made.
    pub register_calls: u32,
    /// How many release calls were made.
    pub unregister_calls: u32,
    /// How many backoff waits were taken.
    pub backoff_calls: u32,
}

impl HotkeyOs for ScriptedHotkeyOs {
    fn register_hotkey(&mut self, id: i32, modifiers: u32, key_code: u32) -> Result<(), u32> {
        self.register_calls = count_call(self.register_calls);
        let code = if self.register_script.len() > 0 {
            self.register_script.remove(0)
        } else {
            0
        };
        if code == 0 {
            self.registered_ids.push(id);
            Ok(())
        } else {
            Err(code)
        }
    }

    fn unregister_hotkey(&mut self, id: i32) -> bool {
        self.unregister_calls = count_call(self.unregister_calls);
        let mut i: usize = 0;
        while i < self.registered_ids.len()
            invariant
                i <= self.registered_ids@.len(),
            decreases self.registered_ids@.len() - i,
        {
            if self.registered_ids[i] == id {
                self.registered_ids.remove(i);
                return true;
            }
            i += 1;
        }
        false
    }

    fn backoff_delay(&mut self) {
        self.backoff_calls = count_call(self.backoff_calls);
    }
}

} // verus!

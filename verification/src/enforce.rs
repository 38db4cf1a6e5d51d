//! The enforcement engine: one pass reads the mode state, decides whether the
//! focused input context needs action, and drives the layered chain of
//! activation strategies with a verification read afterwards. The
//! operating-system capabilities it needs are a trait, so the decision logic
//! holds for every implementation of them, however the OS behaves.

use vstd::prelude::*;

use crate::config::{spec_opposite_mode, Config};
use crate::locale::{is_managed_lang, spec_is_managed_lang, spec_target_lang_id, target_lang_id};

verus! {

/// One concrete technique for forcing a target locale to become active.
#[derive(Clone, Copy, Debug, PartialEq, Eq, Structural)]
pub enum StrategyId {
    /// Session-wide activation with reorder and default-replacement flags.
    SessionWide,
    /// An input-locale change request posted to all top-level windows.
    BroadcastRequest,
    /// Explicitly loading the layout by its canonical identifier, then
    /// activating the freshly loaded handle.
    LoadThenActivate,
    /// The generic settings-changed broadcast, always posted last.
    SettingsBroadcast,
}

/// Why a pass ended without running any strategy.
#[derive(Clone, Copy, Debug, PartialEq, Eq, Structural)]
pub enum SkipReason {
    /// The master switch is off; nothing at all is touched.
    MasterSwitchOff,
    /// The focused window belongs to an exempt process.
    Excluded,
    /// The active locale is outside the managed pair and is left alone.
    NotManagedLocale,
}

/// What running the strategy chain produced: the success signal of each step
/// that was tried. Later fallbacks are only tried while no step has succeeded;
/// the settings-changed broadcast is always posted.
#[derive(Clone, Copy, Debug, PartialEq, Eq, Structural)]
pub struct ChainAttempt {
    /// Success signal of the session-wide activation.
    pub session_wide: bool,
    /// Success signal of the broadcast fallback, if it was tried.
    pub broadcast_request: Option<bool>,
    /// Success signal of the load-then-activate fallback, if it was tried.
    pub load_then_activate: Option<bool>,
    /// Success signal of the final settings-changed broadcast.
    pub settings_broadcast: bool,
}

impl ChainAttempt {
    /// The chain tries each fallback exactly when every earlier step failed.
    pub open spec fn wf(self) -> bool {
        &&& (self.broadcast_request is Some <==> !self.session_wide)
        &&& (self.load_then_activate is Some <==> (!self.session_wide
            && self.broadcast_request == Some(false)))
    }

    /// The first step that reported success, if any step did.
    pub open spec fn spec_first_success(self) -> Option<StrategyId> {
        if self.session_wide {
            Some(StrategyId::SessionWide)
        } else if self.broadcast_request == Some(true) {
            Some(StrategyId::BroadcastRequest)
        } else if self.load_then_activate == Some(true) {
            Some(StrategyId::LoadThenActivate)
        } else if self.settings_broadcast {
            Some(StrategyId::SettingsBroadcast)
        } else {
            Option::None
        }
    }

    /// Exec counterpart of [`ChainAttempt::spec_first_success`].
    pub fn first_success(&self) -> (r: Option<StrategyId>)
        ensures
            r == self.spec_first_success(),
    {
        if self.session_wide {
            return Some(StrategyId::SessionWide);
        }
        if let Some(true) = self.broadcast_request {
            return Some(StrategyId::BroadcastRequest);
        }
        if let Some(true) = self.load_then_activate {
            return Some(StrategyId::LoadThenActivate);
        }
        if self.settings_broadcast {
            return Some(StrategyId::SettingsBroadcast);
        }
        None
    }
}

/// The outcome of a strategy run, as reported in the pass outcome.
#[derive(Clone, Copy, Debug, PartialEq, Eq, Structural)]
pub struct ApplyReport {
    /// Whether any strategy reported success.
    pub applied: bool,
    /// The first strategy that reported success, if any.
    pub strategy_used: Option<StrategyId>,
    /// Whether the verification read after the settle delay matched the
    /// target. Never claimed without a matching read.
    pub verified: bool,
}

/// What one enforcement pass returned.
#[derive(Clone, Copy, Debug, PartialEq, Eq, Structural)]
pub enum EnforcementOutcome {
    /// Nothing was done; the reason says why.
    Skipped(SkipReason),
    /// The active locale already matched the desired mode.
    Noop,
    /// The strategy chain ran; the report says what happened.
    Applied(ApplyReport),
}

/// The operating-system capabilities the engine drives. No behaviour is
/// assumed of them: every contract of the engine holds whatever an
/// implementation returns.
pub trait LocaleOps {
    /// Request session-wide activation of the layout for `target_lang_id`,
    /// with flags asking for preference-list reordering and default-locale
    /// replacement. True when the call reports no error.
    fn activate_session_wide(&mut self, target_lang_id: u16) -> bool;

    /// Post an input-locale change request carrying `target_lang_id` to all
    /// top-level windows. True when the post reports no error.
    fn broadcast_lang_change_request(&mut self, target_lang_id: u16) -> bool;

    /// Load the layout by its canonical identifier string and activate the
    /// freshly loaded handle once. True when both steps report success.
    fn load_then_activate(&mut self, target_lang_id: u16) -> bool;

    /// Post the generic settings-changed broadcast. True when the post
    /// reports no error.
    fn broadcast_setting_change(&mut self) -> bool;

    /// Best-effort name of the executable owning the focused window.
    fn resolve_owning_process_name(&mut self) -> Option<String>;

    /// The language identifier active for the focused input context.
    fn read_active_lang_id(&mut self) -> u16;

    /// Brief pause before the verification read, so asynchronous OS
    /// propagation can settle.
    fn settle_delay(&mut self);
}

/// Run the strategy chain for `target_lang_id`: try each technique in order,
/// stop falling back at the first success, and always post the final
/// settings-changed nudge.
pub fn run_chain<O: LocaleOps>(os: &mut O, target_lang_id: u16) -> (r: ChainAttempt)
    ensures
        r.wf(),
{
    let session_wide = os.activate_session_wide(target_lang_id);
    let broadcast_request = if session_wide {
        None
    } else {
        Some(os.broadcast_lang_change_request(target_lang_id))
    };
    let load_then_activate = match broadcast_request {
        Some(false) => Some(os.load_then_activate(target_lang_id)),
        _ => None,
    };
    let settings_broadcast = os.broadcast_setting_change();
    ChainAttempt { session_wide, broadcast_request, load_then_activate, settings_broadcast }
}

/// The view of a resolved process name.
pub open spec fn spec_opt_name_view(p: Option<String>) -> Option<Seq<char>> {
    match p {
        Some(s) => Some(s@),
        Option::None => Option::None,
    }
}

/// An unresolvable process name is treated as not excluded.
pub open spec fn spec_excluded_opt(cfg: Config, p: Option<Seq<char>>) -> bool {
    match p {
        Some(name) => cfg.spec_excludes(name),
        Option::None => false,
    }
}

/// What one pass decides, given the state and what it observed.
#[derive(Clone, Copy, Debug, PartialEq, Eq, Structural)]
pub enum Decision {
    /// The master switch is off.
    SkipMasterOff,
    /// The owning process is exempt.
    SkipExcluded,
    /// The active locale is outside the managed pair.
    SkipNotManaged,
    /// The active locale already matches the target.
    AlreadyCorrect,
    /// The strategy chain must run.
    RunChain,
}

/// The decision rule of one enforcement pass, in the order the short-circuits
/// are evaluated.
pub open spec fn spec_decision(cfg: Config, resolved: Option<Seq<char>>, lang_id: u16) -> Decision {
    if !cfg.master_switch {
        Decision::SkipMasterOff
    } else if spec_excluded_opt(cfg, resolved) {
        Decision::SkipExcluded
    } else if !spec_is_managed_lang(lang_id) {
        Decision::SkipNotManaged
    } else if lang_id == spec_target_lang_id(cfg.ime_mode) {
        Decision::AlreadyCorrect
    } else {
        Decision::RunChain
    }
}

/// Everything one enforcement pass observed and concluded.
#[derive(Debug)]
pub struct EnforcementAttempt {
    /// The language identifier the desired mode calls for.
    pub target_lang_id: u16,
    /// The resolved owning process name, when resolution was reached.
    pub observed_process: Option<String>,
    /// The locale observed at entry, when the pass got that far.
    pub observed_lang_id: Option<u16>,
    /// The strategy chain record, when the chain ran.
    pub chain: Option<ChainAttempt>,
    /// The verification read after the settle delay, when the chain ran.
    pub verify_read: Option<u16>,
    /// The reported outcome.
    pub outcome: EnforcementOutcome,
}

/// One enforcement pass: decide from the mode state and the observed context
/// whether action is needed, run the strategy chain if so, and report the
/// outcome with a post-activation verification read.
///
/// When the master switch is off nothing is observed and no strategy runs;
/// an exempt process is never acted on, whatever the desired mode; an
/// unmanaged locale is left untouched; a correct locale is a no-op. The
/// `verified` flag of an applied outcome holds exactly when the verification
/// read matched the target: success is never reported without a matching
/// read.
pub fn enforce_global_ime_mode<O: LocaleOps>(os: &mut O, config: &Config) -> (r:
    EnforcementAttempt)
    ensures
        r.target_lang_id == spec_target_lang_id(config.ime_mode),
        (r.outcome == EnforcementOutcome::Skipped(SkipReason::MasterSwitchOff)) <==> !config.master_switch,
        !config.master_switch ==> r.observed_process is None && r.observed_lang_id is None
            && r.chain is None && r.verify_read is None,
        (r.outcome == EnforcementOutcome::Skipped(SkipReason::Excluded)) <==> (config.master_switch
            && spec_excluded_opt(*config, spec_opt_name_view(r.observed_process))),
        r.outcome == EnforcementOutcome::Skipped(SkipReason::Excluded) ==> r.observed_lang_id is None
            && r.chain is None && r.verify_read is None,
        (r.observed_lang_id is Some) <==> (config.master_switch && !spec_excluded_opt(
            *config,
            spec_opt_name_view(r.observed_process),
        )),
        r.observed_lang_id matches Some(l) ==> {
            let d = spec_decision(*config, spec_opt_name_view(r.observed_process), l);
            &&& ((d == Decision::SkipNotManaged) <==> (r.outcome == EnforcementOutcome::Skipped(
                SkipReason::NotManagedLocale,
            )))
            &&& ((d == Decision::AlreadyCorrect) <==> (r.outcome == EnforcementOutcome::Noop))
            &&& ((d == Decision::RunChain) <==> (r.outcome is Applied))
            &&& ((d == Decision::SkipNotManaged || d == Decision::AlreadyCorrect) ==> r.chain is None
                && r.verify_read is None)
            &&& ((d == Decision::RunChain) ==> r.chain is Some && r.verify_read is Some)
        },
        r.chain matches Some(c) ==> c.wf(),
        r.outcome matches EnforcementOutcome::Applied(a) ==> r.chain matches Some(c) && {
            &&& a.strategy_used == c.spec_first_success()
            &&& a.applied == (c.spec_first_success() is Some)
            &&& a.verified == (r.verify_read == Some(r.target_lang_id))
        },
{
    let target = target_lang_id(config.ime_mode);
    if !config.master_switch {
        return EnforcementAttempt {
            target_lang_id: target,
            observed_process: None,
            observed_lang_id: None,
            chain: None,
            verify_read: None,
            outcome: EnforcementOutcome::Skipped(SkipReason::MasterSwitchOff),
        };
    }
    let observed_process = os.resolve_owning_process_name();
    let excluded = match &observed_process {
        Some(name) => config.excludes(name),
        None => false,
    };
    if excluded {
        return EnforcementAttempt {
            target_lang_id: target,
            observed_process,
            observed_lang_id: None,
            chain: None,
            verify_read: None,
            outcome: EnforcementOutcome::Skipped(SkipReason::Excluded),
        };
    }
    let lang = os.read_active_lang_id();
    if !is_managed_lang(lang) {
        return EnforcementAttempt {
            target_lang_id: target,
            observed_process,
            observed_lang_id: Some(lang),
            chain: None,
            verify_read: None,
            outcome: EnforcementOutcome::Skipped(SkipReason::NotManagedLocale),
        };
    }
    if lang == target {
        return EnforcementAttempt {
            target_lang_id: target,
            observed_process,
            observed_lang_id: Some(lang),
            chain: None,
            verify_read: None,
            outcome: EnforcementOutcome::Noop,
        };
    }
    let chain = run_chain(os, target);
    os.settle_delay();
    let verify_read = os.read_active_lang_id();
    let strategy_used = chain.first_success();
    let applied = strategy_used.is_some();
    let verified = verify_read == target;
    EnforcementAttempt {
        target_lang_id: target,
        observed_process,
        observed_lang_id: Some(lang),
        chain: Some(chain),
        verify_read: Some(verify_read),
        outcome: EnforcementOutcome::Applied(
            ApplyReport { applied, strategy_used, verified },
        ),
    }
}

/// Idempotence of a correct state: with the master switch on, a process that
/// is not exempt and an active locale already equal to the desired mode's
/// target, every pass decides on a no-op — so repeated passes with no
/// intervening state change return no-op outcomes and never invoke a
/// strategy.
pub proof fn lemma_noop_when_already_correct(cfg: Config, resolved: Option<Seq<char>>, lang_id: u16)
    requires
        cfg.master_switch,
        !spec_excluded_opt(cfg, resolved),
        lang_id == spec_target_lang_id(cfg.ime_mode),
    ensures
        spec_decision(cfg, resolved, lang_id) == Decision::AlreadyCorrect,
{
}

/// Exclusion correctness: a pass over a window owned by an exempt process is
/// always skipped with the exclusion reason, whatever the desired mode and
/// whatever locale is active.
pub proof fn lemma_excluded_process_skips(cfg: Config, name: Seq<char>, lang_id: u16)
    requires
        cfg.master_switch,
        cfg.spec_excludes(name),
    ensures
        spec_decision(cfg, Some(name), lang_id) == Decision::SkipExcluded,
{
}

/// Master-switch gating: with the master switch off, every pass decides to
/// skip before anything is observed — so no OS activation call is made,
/// however many passes are triggered.
pub proof fn lemma_master_switch_gates(cfg: Config, resolved: Option<Seq<char>>, lang_id: u16)
    requires
        !cfg.master_switch,
    ensures
        spec_decision(cfg, resolved, lang_id) == Decision::SkipMasterOff,
{
}

/// Scenario: the master switch is on, the process is not exempt, and the
/// active locale is the other mode's target (for instance, the alternate
/// locale while the primary mode is desired) — so the pass must run the
/// chain. When the session-wide activation reports success, it is the first
/// success of the chain, and no fallback strategy was tried at all; only the
/// unconditional settings-changed broadcast still fires. Together with the
/// engine's contract this gives the outcome `applied` with the session-wide
/// strategy, and `verified` exactly when the verification read returns the
/// target.
pub proof fn lemma_session_wide_scenario(
    cfg: Config,
    resolved: Option<Seq<char>>,
    lang_id: u16,
    chain: ChainAttempt,
)
    requires
        cfg.master_switch,
        !spec_excluded_opt(cfg, resolved),
        lang_id == spec_target_lang_id(spec_opposite_mode(cfg.ime_mode)),
        chain.wf(),
        chain.session_wide,
    ensures
        spec_decision(cfg, resolved, lang_id) == Decision::RunChain,
        chain.spec_first_success() == Some(StrategyId::SessionWide),
        chain.broadcast_request is None,
        chain.load_then_activate is None,
{
}

/// Scenario: as in the session-wide case, but the session-wide activation
/// failed, the broadcast fallback declined, and the load-then-activate
/// fallback succeeded — it is then the strategy the chain reports, and the
/// engine's contract gives the outcome `applied` with that strategy.
pub proof fn lemma_load_then_activate_scenario(
    cfg: Config,
    resolved: Option<Seq<char>>,
    lang_id: u16,
    chain: ChainAttempt,
)
    requires
        cfg.master_switch,
        !spec_excluded_opt(cfg, resolved),
        lang_id == spec_target_lang_id(spec_opposite_mode(cfg.ime_mode)),
        chain.wf(),
        !chain.session_wide,
        chain.broadcast_request == Some(false),
        chain.load_then_activate == Some(true),
    ensures
        spec_decision(cfg, resolved, lang_id) == Decision::RunChain,
        chain.spec_first_success() == Some(StrategyId::LoadThenActivate),
{
}

} // verus!

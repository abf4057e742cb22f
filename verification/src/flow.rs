//! The step-flow controller.
//!
//! The wizard walks a fixed, totally ordered sequence of steps.  Each
//! step's screen validates its own input; the controller only merges a
//! validated option set into the aggregate configuration and moves to
//! the next step.  Screen handles are cached per step and reused on
//! re-entry — except the summary's, which is rebuilt on every visit so
//! that it never shows stale values.

use vstd::prelude::*;

use crate::config::{
    BootdiskOptions, InstallerOptions, NetworkOptions, PasswordOptions, TimezoneOptions,
};

verus! {

/// One stage of the wizard, in its fixed order.
#[derive(Debug, Clone, Copy, PartialEq, Eq, Structural)]
pub enum InstallerStep {
    Licence,
    Bootdisk,
    Timezone,
    Password,
    Network,
    Summary,
    Install,
}

/// The position of a step in the fixed order.
pub open spec fn step_index(s: InstallerStep) -> int {
    match s {
        InstallerStep::Licence => 0,
        InstallerStep::Bootdisk => 1,
        InstallerStep::Timezone => 2,
        InstallerStep::Password => 3,
        InstallerStep::Network => 4,
        InstallerStep::Summary => 5,
        InstallerStep::Install => 6,
    }
}

/// The step at a position of the fixed order.
pub open spec fn step_of_index(i: int) -> InstallerStep {
    if i == 0 {
        InstallerStep::Licence
    } else if i == 1 {
        InstallerStep::Bootdisk
    } else if i == 2 {
        InstallerStep::Timezone
    } else if i == 3 {
        InstallerStep::Password
    } else if i == 4 {
        InstallerStep::Network
    } else if i == 5 {
        InstallerStep::Summary
    } else {
        InstallerStep::Install
    }
}

/// How many steps the wizard has.
pub const STEP_COUNT: usize = 7;

impl InstallerStep {
    /// The position of this step in the fixed order.
    pub fn index(self) -> (i: usize)
        ensures
            i == step_index(self),
            i < STEP_COUNT,
    {
        match self {
            InstallerStep::Licence => 0,
            InstallerStep::Bootdisk => 1,
            InstallerStep::Timezone => 2,
            InstallerStep::Password => 3,
            InstallerStep::Network => 4,
            InstallerStep::Summary => 5,
            InstallerStep::Install => 6,
        }
    }

    /// The step that follows this one; the last step has no successor.
    pub open spec fn spec_next(self) -> Option<InstallerStep> {
        if self is Install {
            None
        } else {
            Some(step_of_index(step_index(self) + 1))
        }
    }

    /// The step immediately before this one.  At the first step this is
    /// the step itself: retreating never wraps and never errors.
    pub open spec fn spec_prev(self) -> InstallerStep {
        if self is Licence {
            InstallerStep::Licence
        } else {
            step_of_index(step_index(self) - 1)
        }
    }

    /// The successor step, for everything but the final step.
    pub fn next(self) -> (n: InstallerStep)
        requires
            self !is Install,
        ensures
            Some(n) == self.spec_next(),
    {
        match self {
            InstallerStep::Licence => InstallerStep::Bootdisk,
            InstallerStep::Bootdisk => InstallerStep::Timezone,
            InstallerStep::Timezone => InstallerStep::Password,
            InstallerStep::Password => InstallerStep::Network,
            InstallerStep::Network => InstallerStep::Summary,
            InstallerStep::Summary => InstallerStep::Install,
            InstallerStep::Install => InstallerStep::Install,
        }
    }

    /// The predecessor step, saturating at the first step.
    pub fn prev(self) -> (p: InstallerStep)
        ensures
            p == self.spec_prev(),
    {
        match self {
            InstallerStep::Licence => InstallerStep::Licence,
            InstallerStep::Bootdisk => InstallerStep::Licence,
            InstallerStep::Timezone => InstallerStep::Bootdisk,
            InstallerStep::Password => InstallerStep::Timezone,
            InstallerStep::Network => InstallerStep::Password,
            InstallerStep::Summary => InstallerStep::Network,
            InstallerStep::Install => InstallerStep::Summary,
        }
    }
}

/// Retreating from the first step is a no-op: the predecessor of the
/// first step is the first step itself.
pub proof fn lemma_retreat_first_step_noop()
    ensures
        InstallerStep::Licence.spec_prev() == InstallerStep::Licence,
{
}

/// A retained, on-screen representation of a step.  The identifier is
/// unique across the wizard's lifetime: two handles with different
/// identifiers are never the same screen.
#[derive(Debug, Clone, Copy, PartialEq, Eq, Structural)]
pub struct ScreenHandle {
    pub step: InstallerStep,
    pub id: u64,
}

/// What the presentation layer must do after a step is entered.
#[derive(Debug, Clone, Copy, PartialEq, Eq, Structural)]
pub enum EnterAction {
    /// The step's cached screen is current again, unchanged.
    Reuse,
    /// The step was visited before, but its screen must be built anew
    /// (the summary never shows stale values).
    Rebuild,
    /// The step is visited for the first time: build its screen, and —
    /// exactly once per wizard lifetime, on the very first screen —
    /// run the late setup hook afterwards.
    Create { run_late_setup: bool },
}

/// The screen cache: at most one handle per step, with a counter that
/// makes every handle it ever hands out unique.
pub struct StepRegistry {
    screens: Vec<Option<ScreenHandle>>,
    next_id: u64,
}

impl StepRegistry {
    /// The handle cached for a step.
    pub closed spec fn handle_of(&self, step: InstallerStep) -> Option<ScreenHandle> {
        self.screens@[step_index(step)]
    }

    /// The next identifier to be handed out; all issued handles have a
    /// smaller one.
    pub closed spec fn spec_next_id(&self) -> u64 {
        self.next_id
    }

    /// No step has a screen yet.
    pub closed spec fn spec_is_empty(&self) -> bool {
        forall|k: int| 0 <= k < 7 ==> self.screens@[k] is None
    }

    /// Well-formedness: one slot per step, every cached handle belongs
    /// to its slot's step and carries an already-issued identifier.
    pub closed spec fn wf(&self) -> bool {
        &&& self.screens@.len() == 7
        &&& forall|k: int|
            0 <= k < 7 ==> ((#[trigger] self.screens@[k]) matches Some(h) ==> h.id < self.next_id
                && h.step == step_of_index(k))
    }

    /// An empty cache.
    pub fn new() -> (r: StepRegistry)
        ensures
            r.wf(),
            r.spec_is_empty(),
            r.spec_next_id() == 0,
    {
        let mut screens: Vec<Option<ScreenHandle>> = Vec::new();
        screens.push(None);
        screens.push(None);
        screens.push(None);
        screens.push(None);
        screens.push(None);
        screens.push(None);
        screens.push(None);
        StepRegistry { screens, next_id: 0 }
    }

    /// Enters a step: reuses its cached screen, except that the summary
    /// is rebuilt on every re-entry, and a first visit creates the
    /// screen.  The late setup hook is signalled exactly on the first
    /// screen of the wizard's lifetime.
    pub fn enter(&mut self, step: InstallerStep) -> (r: (ScreenHandle, EnterAction))
        requires
            old(self).wf(),
            old(self).spec_next_id() < u64::MAX,
        ensures
            final(self).wf(),
            r.0.step == step,
            final(self).handle_of(step) == Some(r.0),
            // every other step's cache is untouched
            forall|s2: InstallerStep|
                s2 != step ==> #[trigger] final(self).handle_of(s2) == old(self).handle_of(s2),
            // a cached step other than the summary is simply reused
            step != InstallerStep::Summary ==> (old(self).handle_of(step) matches Some(h) ==> r
                == (h, EnterAction::Reuse) && *final(self) == *old(self)),
            // a cached summary is rebuilt with a fresh handle
            (old(self).handle_of(step) is Some && step == InstallerStep::Summary) ==> r.1
                == EnterAction::Rebuild && r.0.id == old(self).spec_next_id(),
            // a first visit creates the screen; the late setup hook runs
            // exactly when no screen existed before
            old(self).handle_of(step) is None ==> r.1 == (EnterAction::Create {
                run_late_setup: old(self).spec_is_empty(),
            }) && r.0.id == old(self).spec_next_id(),
            // the counter grows by at most one, the returned handle's
            // identifier stays below it, and the registry is never
            // empty again
            old(self).spec_next_id() <= final(self).spec_next_id() <= old(self).spec_next_id()
                + 1,
            r.0.id < final(self).spec_next_id(),
            !final(self).spec_is_empty(),
    {
        let idx = step.index();
        let cached = self.screens[idx];
        match cached {
            Some(h) => {
                if matches!(step, InstallerStep::Summary) {
                    let fresh = ScreenHandle { step, id: self.next_id };
                    self.next_id = self.next_id + 1;
                    self.screens.set(idx, Some(fresh));
                    (fresh, EnterAction::Rebuild)
                } else {
                    (h, EnterAction::Reuse)
                }
            },
            None => {
                let run_late_setup = self.is_empty();
                let fresh = ScreenHandle { step, id: self.next_id };
                self.next_id = self.next_id + 1;
                self.screens.set(idx, Some(fresh));
                (fresh, EnterAction::Create { run_late_setup })
            },
        }
    }

    /// Whether another handle can still be issued.
    pub fn has_capacity(&self) -> (r: bool)
        ensures
            r == (self.spec_next_id() < u64::MAX),
    {
        self.next_id < u64::MAX
    }

    /// Whether no screen has been created yet.
    pub fn is_empty(&self) -> (r: bool)
        requires
            self.wf(),
        ensures
            r == self.spec_is_empty(),
    {
        let mut k: usize = 0;
        while k < 7
            invariant
                self.screens@.len() == 7,
                k <= 7,
                forall|j: int| 0 <= j < k ==> self.screens@[j] is None,
            decreases 7 - k,
        {
            if self.screens[k].is_some() {
                return false;
            }
            k += 1;
        }
        true
    }
}

/// The option set one step contributes after its screen validated the
/// raw input.
#[derive(Debug, Clone)]
pub enum StepOptions {
    /// Agreeing to the license contributes no options.
    Licence,
    Bootdisk(BootdiskOptions),
    Timezone(TimezoneOptions),
    Password(PasswordOptions),
    Network(NetworkOptions),
    /// The summary step contributes the auto-reboot flag.
    Autoreboot(bool),
}

/// Whether an option set is the kind its step contributes.
pub open spec fn options_match_step(o: StepOptions, s: InstallerStep) -> bool {
    match o {
        StepOptions::Licence => s is Licence,
        StepOptions::Bootdisk(_) => s is Bootdisk,
        StepOptions::Timezone(_) => s is Timezone,
        StepOptions::Password(_) => s is Password,
        StepOptions::Network(_) => s is Network,
        StepOptions::Autoreboot(_) => s is Summary,
    }
}

/// A validated option set: the step's own validation predicate holds
/// of what it hands over.
pub open spec fn step_options_valid(o: StepOptions) -> bool {
    match o {
        StepOptions::Licence => true,
        StepOptions::Bootdisk(b) => b.disk.path@.len() > 0,
        StepOptions::Timezone(t) => t.timezone@.len() > 0 && t.kb_layout@.len() > 0,
        StepOptions::Password(p) => crate::validate::valid_password(p),
        StepOptions::Network(n) => crate::validate::valid_network(n),
        StepOptions::Autoreboot(_) => true,
    }
}

/// The aggregate configuration after one step's validated options are
/// merged: exactly that step's sub-record changes.
pub open spec fn merge_spec(c: InstallerOptions, o: StepOptions) -> InstallerOptions {
    match o {
        StepOptions::Licence => c,
        StepOptions::Bootdisk(b) => InstallerOptions { bootdisk: b, ..c },
        StepOptions::Timezone(t) => InstallerOptions { timezone: t, ..c },
        StepOptions::Password(p) => InstallerOptions { password: p, ..c },
        StepOptions::Network(n) => InstallerOptions { network: n, ..c },
        StepOptions::Autoreboot(a) => InstallerOptions { autoreboot: a, ..c },
    }
}

/// Every sub-record of the aggregate is either still its initial
/// (default) value or satisfies its own validation predicate:
/// partially-valid states are never persisted.
pub open spec fn options_wf(c: InstallerOptions, initial: InstallerOptions) -> bool {
    &&& c.bootdisk == initial.bootdisk || step_options_valid(StepOptions::Bootdisk(c.bootdisk))
    &&& c.timezone == initial.timezone || step_options_valid(StepOptions::Timezone(c.timezone))
    &&& c.password == initial.password || crate::validate::valid_password(c.password)
    &&& c.network == initial.network || crate::validate::valid_network(c.network)
}

/// Merging a validated option set preserves the aggregate's invariant.
pub proof fn lemma_merge_preserves_wf(c: InstallerOptions, initial: InstallerOptions,
    o: StepOptions)
    requires
        options_wf(c, initial),
        step_options_valid(o),
    ensures
        options_wf(merge_spec(c, o), initial),
{
}

/// The aggregate configuration after a run of merges, one per advance.
pub open spec fn merge_all(c: InstallerOptions, os: Seq<StepOptions>) -> InstallerOptions
    decreases os.len(),
{
    if os.len() == 0 {
        c
    } else {
        merge_spec(merge_all(c, os.drop_last()), os.last())
    }
}

/// For every step sequence reachable by only ever advancing after a
/// successful validation — option sets `os[0], os[1], …` contributed by
/// the steps in their fixed order, starting at the first step — the
/// aggregate configuration afterwards holds exactly the validated
/// results of those steps and the initial (default) values of all the
/// rest.
pub proof fn lemma_config_after_advances(c0: InstallerOptions, os: Seq<StepOptions>)
    requires
        os.len() <= 6,
        forall|i: int| 0 <= i < os.len() ==> options_match_step(#[trigger] os[i], step_of_index(i)),
    ensures
        ({
            let c = merge_all(c0, os);
            &&& (os.len() >= 2 ==> (os[1] matches StepOptions::Bootdisk(b) && c.bootdisk == b))
            &&& (os.len() < 2 ==> c.bootdisk == c0.bootdisk)
            &&& (os.len() >= 3 ==> (os[2] matches StepOptions::Timezone(t) && c.timezone == t))
            &&& (os.len() < 3 ==> c.timezone == c0.timezone)
            &&& (os.len() >= 4 ==> (os[3] matches StepOptions::Password(p) && c.password == p))
            &&& (os.len() < 4 ==> c.password == c0.password)
            &&& (os.len() >= 5 ==> (os[4] matches StepOptions::Network(n) && c.network == n))
            &&& (os.len() < 5 ==> c.network == c0.network)
            &&& (os.len() == 6 ==> (os[5] matches StepOptions::Autoreboot(a) && c.autoreboot == a))
            &&& (os.len() < 6 ==> c.autoreboot == c0.autoreboot)
        }),
    decreases os.len(),
{
    if os.len() > 0 {
        assert forall|i: int| 0 <= i < os.drop_last().len() implies options_match_step(
            #[trigger] os.drop_last()[i],
            step_of_index(i),
        ) by {
            assert(os.drop_last()[i] == os[i]);
        }
        lemma_config_after_advances(c0, os.drop_last());
        assert(options_match_step(os.last(), step_of_index(os.len() - 1)));
    }
}

/// What the flow controller decides when the user asks to advance.
#[derive(Debug, Clone)]
pub enum AdvanceOutcome {
    /// The candidate options were merged; the wizard moved to this step.
    Advanced(InstallerStep),
    /// The screen's validation failed; the step is re-displayed with
    /// this error and nothing was mutated.
    Rejected(String),
}

/// The whole wizard state: the aggregate configuration, the screen
/// cache, the active step and the build flavour.
pub struct InstallerState {
    pub options: InstallerOptions,
    pub registry: StepRegistry,
    pub current: InstallerStep,
    pub in_test_mode: bool,
}

impl InstallerState {
    /// The state before the first screen is shown.
    pub fn new(options: InstallerOptions, in_test_mode: bool) -> (r: InstallerState)
        ensures
            r.options == options,
            r.registry.wf(),
            r.registry.spec_is_empty(),
            r.registry.spec_next_id() == 0,
            r.current == InstallerStep::Licence,
            r.in_test_mode == in_test_mode,
    {
        InstallerState {
            options,
            registry: StepRegistry::new(),
            current: InstallerStep::Licence,
            in_test_mode,
        }
    }

    /// Advances past the active step.  The step's screen has already
    /// validated its raw input and hands over either a typed option set
    /// or a human-readable error; the controller performs no field
    /// validation of its own.  A valid result is merged into the
    /// aggregate configuration and the wizard moves to the next step; a
    /// rejection re-displays the same step and mutates nothing.
    pub fn advance(&mut self, candidate: Result<StepOptions, String>) -> (r: AdvanceOutcome)
        requires
            old(self).current !is Install,
            candidate matches Ok(o) ==> options_match_step(o, old(self).current),
        ensures
            candidate matches Ok(o) ==> {
                &&& Some(final(self).current) == old(self).current.spec_next()
                &&& r == AdvanceOutcome::Advanced(final(self).current)
                &&& final(self).options == merge_spec(old(self).options, o)
                &&& final(self).registry == old(self).registry
                &&& final(self).in_test_mode == old(self).in_test_mode
            },
            candidate matches Err(e) ==> r == AdvanceOutcome::Rejected(e) && *final(self) == *old(
                self,
            ),
    {
        match candidate {
            Err(e) => AdvanceOutcome::Rejected(e),
            Ok(o) => {
                match o {
                    StepOptions::Licence => {},
                    StepOptions::Bootdisk(b) => {
                        self.options.bootdisk = b;
                    },
                    StepOptions::Timezone(t) => {
                        self.options.timezone = t;
                    },
                    StepOptions::Password(p) => {
                        self.options.password = p;
                    },
                    StepOptions::Network(n) => {
                        self.options.network = n;
                    },
                    StepOptions::Autoreboot(a) => {
                        self.options.autoreboot = a;
                    },
                }
                let next = self.current.next();
                self.current = next;
                AdvanceOutcome::Advanced(next)
            },
        }
    }

    /// Moves to the immediately preceding step.  At the first step this
    /// is a no-op: the state before and after are identical.
    pub fn retreat(&mut self)
        ensures
            final(self).current == old(self).current.spec_prev(),
            final(self).options == old(self).options,
            final(self).registry == old(self).registry,
            final(self).in_test_mode == old(self).in_test_mode,
            old(self).current is Licence ==> *final(self) == *old(self),
    {
        self.current = self.current.prev();
    }
}

/// Every handle a well-formed registry caches carries an identifier
/// below the registry's counter.  Together with `enter`'s promise that
/// every returned handle stays below the final counter and that the
/// counter only grows, this lets a caller place each handle it ever
/// received below the counter of any later registry state.
pub proof fn lemma_cached_handle_id_bound(reg: StepRegistry, step: InstallerStep)
    requires
        reg.wf(),
        reg.handle_of(step) is Some,
    ensures
        reg.handle_of(step)->0.id < reg.spec_next_id(),
{
    assert(0 <= step_index(step) < 7);
}

/// An empty registry caches a handle for no step at all.
pub proof fn lemma_empty_registry_has_no_handles(reg: StepRegistry, step: InstallerStep)
    ensures
        reg.spec_is_empty() ==> reg.handle_of(step) is None,
{
    assert(0 <= step_index(step) < 7);
}

/// The cache-bypass invariant of the summary step: a handle issued at
/// the moment the summary is re-entered differs from every handle the
/// registry handed out before — no previously displayed summary screen
/// is ever shown again.
pub proof fn lemma_rebuilt_summary_is_fresh(at_entry: StepRegistry, fresh: ScreenHandle,
    previous: ScreenHandle)
    requires
        fresh.id == at_entry.spec_next_id(),
        previous.id < at_entry.spec_next_id(),
    ensures
        fresh != previous,
{
}

} // verus!



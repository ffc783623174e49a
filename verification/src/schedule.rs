//! Which systems the character controller plugin registers, in which schedule,
//! and how they are ordered.
//!
//! The plugin is dual-mode. In default mode it reads the keyboard itself,
//! mirrors the fixed clock and splits its systems over `FixedPreUpdate` and
//! `FixedUpdate`. In driven mode every system runs chained in one schedule of
//! the caller's choosing, and neither the keyboard nor the clock is read unless
//! the caller asks for it.

use vstd::prelude::*;

verus! {

/// The schedule a registration goes into.
#[derive(Clone, Copy, Debug, PartialEq, Eq, Structural)]
pub enum ScheduleSlot {
    FixedFirst,
    FixedPreUpdate,
    FixedUpdate,
    /// The caller's own schedule (driven mode).
    Driven,
}

/// The systems of the character controller.
#[derive(Clone, Copy, Debug, PartialEq, Eq, Structural)]
pub enum ControllerSystem {
    /// Copies the fixed clock into the controller's clock.
    SyncControllerTime,
    /// Fills the movement intent from the keyboard.
    GatherKeyboardInput,
    /// The look step that driven mode chains ahead of the controller's
    /// systems, meant to orient bodies before movement reads their rotation.
    /// No system and no look state for it exist in this crate or its engine
    /// glue, so the glue registers nothing for this entry; the plan, and the
    /// laws below, keep its place in the chain.
    ApplyLook,
    /// Casts the ground ray and marks the body grounded or airborne.
    HandleGrounded,
    /// Applies drag against the horizontal velocity.
    HandleFriction,
    /// Applies the ground spring that keeps the body at its ride height.
    HandleHover,
    /// Applies the move force from the movement intent.
    HandleMovement,
    /// Launches the body when a jump fires.
    HandleJump,
}

/// How the systems of one registration are tied together.
#[derive(Clone, Copy, Debug, PartialEq, Eq, Structural)]
pub enum Grouping {
    /// A single system with no ordering constraint.
    Alone,
    /// A single system ordered before the controller's system set.
    BeforeControllerSet,
    /// Systems chained in the given order, all in the controller's system set.
    ChainedInControllerSet,
}

/// One call that adds systems to a schedule.
#[derive(Debug, PartialEq, Eq)]
pub struct Registration {
    pub slot: ScheduleSlot,
    pub systems: Vec<ControllerSystem>,
    pub grouping: Grouping,
}

/// A registration as a mathematical value.
pub struct RegistrationView {
    pub slot: ScheduleSlot,
    pub systems: Seq<ControllerSystem>,
    pub grouping: Grouping,
}

impl View for Registration {
    type V = RegistrationView;

    open spec fn view(&self) -> RegistrationView {
        RegistrationView { slot: self.slot, systems: self.systems@, grouping: self.grouping }
    }
}

/// The registrations of a plan, as values.
pub open spec fn plan_view(plan: Seq<Registration>) -> Seq<RegistrationView> {
    plan.map_values(|r: Registration| r@)
}

/// Pushing a registration onto a plan pushes its view onto the plan's view.
proof fn plan_view_push(plan: Seq<Registration>, r: Registration)
    ensures
        plan_view(plan.push(r)) == plan_view(plan).push(r@),
{
    assert(plan_view(plan.push(r)) =~= plan_view(plan).push(r@));
}

/// A registration from its parts.
pub open spec fn registration(
    slot: ScheduleSlot,
    systems: Seq<ControllerSystem>,
    grouping: Grouping,
) -> RegistrationView {
    RegistrationView { slot, systems, grouping }
}

/// The chain that driven mode runs in the caller's schedule.
pub open spec fn driven_chain() -> Seq<ControllerSystem> {
    seq![
        ControllerSystem::ApplyLook,
        ControllerSystem::HandleGrounded,
        ControllerSystem::HandleFriction,
        ControllerSystem::HandleHover,
        ControllerSystem::HandleMovement,
        ControllerSystem::HandleJump,
    ]
}

/// The chain that default mode runs in `FixedPreUpdate`.
pub open spec fn fixed_pre_update_chain() -> Seq<ControllerSystem> {
    seq![ControllerSystem::HandleGrounded, ControllerSystem::HandleFriction]
}

/// The chain that default mode runs in `FixedUpdate`.
pub open spec fn fixed_update_chain() -> Seq<ControllerSystem> {
    seq![ControllerSystem::HandleHover, ControllerSystem::HandleMovement, ControllerSystem::HandleJump]
}

/// The registrations the plugin makes, in the order it makes them.
pub open spec fn controller_plan(driven: bool, gather_keyboard: bool, sync_time: bool) -> Seq<
    RegistrationView,
> {
    let clock = if sync_time {
        seq![
            registration(
                ScheduleSlot::FixedFirst,
                seq![ControllerSystem::SyncControllerTime],
                Grouping::Alone,
            ),
        ]
    } else {
        Seq::empty()
    };
    let systems = if driven {
        let keyboard = if gather_keyboard {
            seq![
                registration(
                    ScheduleSlot::Driven,
                    seq![ControllerSystem::GatherKeyboardInput],
                    Grouping::BeforeControllerSet,
                ),
            ]
        } else {
            Seq::empty()
        };
        keyboard + seq![
            registration(
                ScheduleSlot::Driven,
                driven_chain(),
                Grouping::ChainedInControllerSet,
            ),
        ]
    } else {
        let keyboard = if gather_keyboard {
            seq![
                registration(
                    ScheduleSlot::FixedPreUpdate,
                    seq![ControllerSystem::GatherKeyboardInput],
                    Grouping::Alone,
                ),
            ]
        } else {
            Seq::empty()
        };
        keyboard + seq![
            registration(
                ScheduleSlot::FixedPreUpdate,
                fixed_pre_update_chain(),
                Grouping::ChainedInControllerSet,
            ),
            registration(
                ScheduleSlot::FixedUpdate,
                fixed_update_chain(),
                Grouping::ChainedInControllerSet,
            ),
        ]
    };
    clock + systems
}

/// The settings of the plugin as values.
pub struct PluginSettings<L> {
    /// The caller's schedule in driven mode; `None` in default mode.
    pub schedule: Option<L>,
    /// Whether the built-in keyboard reader is registered.
    pub gather_keyboard: bool,
    /// Whether the built-in clock mirror is registered.
    pub sync_time: bool,
}

/// `settings` with the keyboard reader switched on or off.
pub open spec fn keyboard_set<L>(settings: PluginSettings<L>, enabled: bool) -> PluginSettings<L> {
    PluginSettings { gather_keyboard: enabled, ..settings }
}

/// `settings` with the clock mirror switched on or off.
pub open spec fn time_sync_set<L>(settings: PluginSettings<L>, enabled: bool) -> PluginSettings<L> {
    PluginSettings { sync_time: enabled, ..settings }
}

/// The settings of driven mode in `schedule`: no keyboard reader, no clock mirror.
pub open spec fn driven_settings<L>(schedule: L) -> PluginSettings<L> {
    PluginSettings { schedule: Some(schedule), gather_keyboard: false, sync_time: false }
}

/// The settings of default mode: keyboard reader and clock mirror, fixed schedules.
pub open spec fn default_settings<L>() -> PluginSettings<L> {
    PluginSettings { schedule: None, gather_keyboard: true, sync_time: true }
}

/// The registrations that `settings` call for.
pub open spec fn settings_plan<L>(settings: PluginSettings<L>) -> Seq<RegistrationView> {
    controller_plan(settings.schedule is Some, settings.gather_keyboard, settings.sync_time)
}

/// The character controller plugin's settings, generic over the type of the
/// schedule label that driven mode runs in.
pub struct CharacterController3dPlugin<L> {
    /// If `Some`, all systems run chained in this schedule (driven mode).
    /// If `None`, the default `FixedPreUpdate`/`FixedUpdate` split is used.
    schedule: Option<L>,
    /// Add the built-in keyboard reader that fills the movement intent.
    gather_keyboard: bool,
    /// Add the built-in system that mirrors the fixed clock into the controller's clock.
    sync_time: bool,
}

impl<L> View for CharacterController3dPlugin<L> {
    type V = PluginSettings<L>;

    closed spec fn view(&self) -> PluginSettings<L> {
        PluginSettings {
            schedule: self.schedule,
            gather_keyboard: self.gather_keyboard,
            sync_time: self.sync_time,
        }
    }
}

impl<L> Default for CharacterController3dPlugin<L> {
    /// Default mode: reads the keyboard, mirrors the fixed clock, runs in the
    /// fixed schedules.
    fn default() -> (plugin: Self)
        ensures
            plugin@ == default_settings::<L>(),
    {
        CharacterController3dPlugin { schedule: None, gather_keyboard: true, sync_time: true }
    }
}

impl<L> CharacterController3dPlugin<L> {
    /// Run every controller system chained inside `schedule` (driven mode).
    ///
    /// The keyboard reader and clock mirror are off here: the caller supplies
    /// the movement intent and the controller's clock. Either can be switched on
    /// again with [`with_keyboard_input`](Self::with_keyboard_input) or
    /// [`with_time_sync`](Self::with_time_sync).
    pub fn in_schedule(schedule: L) -> (plugin: Self)
        ensures
            plugin@ == driven_settings(schedule),
    {
        CharacterController3dPlugin { schedule: Some(schedule), gather_keyboard: false, sync_time: false }
    }

    /// Toggle the built-in keyboard reader.
    pub fn with_keyboard_input(self, enabled: bool) -> (plugin: Self)
        ensures
            plugin@ == keyboard_set(self@, enabled),
    {
        let mut plugin = self;
        plugin.gather_keyboard = enabled;
        plugin
    }

    /// Toggle the built-in clock mirror.
    pub fn with_time_sync(self, enabled: bool) -> (plugin: Self)
        ensures
            plugin@ == time_sync_set(self@, enabled),
    {
        let mut plugin = self;
        plugin.sync_time = enabled;
        plugin
    }

    /// The caller's schedule in driven mode, `None` in default mode.
    pub fn schedule(&self) -> (schedule: &Option<L>)
        ensures
            *schedule == self@.schedule,
    {
        &self.schedule
    }

    /// Whether the built-in keyboard reader is registered.
    pub fn gathers_keyboard(&self) -> (enabled: bool)
        ensures
            enabled == self@.gather_keyboard,
    {
        self.gather_keyboard
    }

    /// Whether the built-in clock mirror is registered.
    pub fn syncs_time(&self) -> (enabled: bool)
        ensures
            enabled == self@.sync_time,
    {
        self.sync_time
    }

    /// The registrations the plugin makes when it is built, in order.
    pub fn registrations(&self) -> (plan: Vec<Registration>)
        ensures
            plan_view(plan@) == settings_plan(self@),
    {
        let mut plan: Vec<Registration> = Vec::new();
        if self.sync_time {
            let clock = Registration {
                slot: ScheduleSlot::FixedFirst,
                systems: vec![ControllerSystem::SyncControllerTime],
                grouping: Grouping::Alone,
            };
            proof {
                assert(clock.systems@ =~= seq![ControllerSystem::SyncControllerTime]);
                plan_view_push(plan@, clock);
            }
            plan.push(clock);
        }
        let driven = self.schedule.is_some();
        let keyboard_slot = if driven {
            ScheduleSlot::Driven
        } else {
            ScheduleSlot::FixedPreUpdate
        };
        let keyboard_grouping = if driven {
            Grouping::BeforeControllerSet
        } else {
            Grouping::Alone
        };
        if self.gather_keyboard {
            let keyboard = Registration {
                slot: keyboard_slot,
                systems: vec![ControllerSystem::GatherKeyboardInput],
                grouping: keyboard_grouping,
            };
            proof {
                assert(keyboard.systems@ =~= seq![ControllerSystem::GatherKeyboardInput]);
                plan_view_push(plan@, keyboard);
            }
            plan.push(keyboard);
        }
        if driven {
            let chain = Registration {
                slot: ScheduleSlot::Driven,
                systems: vec![
                    ControllerSystem::ApplyLook,
                    ControllerSystem::HandleGrounded,
                    ControllerSystem::HandleFriction,
                    ControllerSystem::HandleHover,
                    ControllerSystem::HandleMovement,
                    ControllerSystem::HandleJump,
                ],
                grouping: Grouping::ChainedInControllerSet,
            };
            proof {
                assert(chain.systems@ =~= driven_chain());
                plan_view_push(plan@, chain);
            }
            plan.push(chain);
        } else {
            let pre = Registration {
                slot: ScheduleSlot::FixedPreUpdate,
                systems: vec![ControllerSystem::HandleGrounded, ControllerSystem::HandleFriction],
                grouping: Grouping::ChainedInControllerSet,
            };
            proof {
                assert(pre.systems@ =~= fixed_pre_update_chain());
                plan_view_push(plan@, pre);
            }
            plan.push(pre);
            let update = Registration {
                slot: ScheduleSlot::FixedUpdate,
                systems: vec![
                    ControllerSystem::HandleHover,
                    ControllerSystem::HandleMovement,
                    ControllerSystem::HandleJump,
                ],
                grouping: Grouping::ChainedInControllerSet,
            };
            proof {
                assert(update.systems@ =~= fixed_update_chain());
                plan_view_push(plan@, update);
            }
            plan.push(update);
        }
        assert(plan_view(plan@) =~= controller_plan(driven, self.gather_keyboard, self.sync_time));
        plan
    }
}

/// Where a registration plan places a system: registration `i`, position `j`.
pub open spec fn registered_at(
    plan: Seq<RegistrationView>,
    system: ControllerSystem,
    i: int,
    j: int,
) -> bool {
    &&& 0 <= i < plan.len()
    &&& 0 <= j < plan[i].systems.len()
    &&& plan[i].systems[j] == system
}

/// The plan registers `system` somewhere.
pub open spec fn registered(plan: Seq<RegistrationView>, system: ControllerSystem) -> bool {
    exists|i: int, j: int| registered_at(plan, system, i, j)
}

/// The plan registers `system` at one place at most.
pub open spec fn registered_at_most_once(
    plan: Seq<RegistrationView>,
    system: ControllerSystem,
) -> bool {
    forall|i: int, j: int, k: int, l: int|
        registered_at(plan, system, i, j) && registered_at(plan, system, k, l) ==> i == k && j == l
}

/// The place of a fixed-clock schedule in each fixed step; the caller's
/// schedule has none.
pub open spec fn fixed_rank(slot: ScheduleSlot) -> int {
    match slot {
        ScheduleSlot::FixedFirst => 0,
        ScheduleSlot::FixedPreUpdate => 1,
        ScheduleSlot::FixedUpdate => 2,
        ScheduleSlot::Driven => -1,
    }
}

/// The system at position `j` of registration `i` is ordered before the one
/// at position `l` of registration `k`: by a chain, by the order of the fixed
/// schedules, or by an ordering against the controller's system set.
pub open spec fn precedes(plan: Seq<RegistrationView>, i: int, j: int, k: int, l: int) -> bool {
    ||| i == k && plan[i].grouping == Grouping::ChainedInControllerSet && j < l
    ||| i != k && plan[i].slot != ScheduleSlot::Driven && plan[k].slot != ScheduleSlot::Driven
        && fixed_rank(plan[i].slot) < fixed_rank(plan[k].slot)
    ||| i != k && plan[i].slot == plan[k].slot && plan[i].grouping
        == Grouping::BeforeControllerSet && plan[k].grouping == Grouping::ChainedInControllerSet
}

/// Both systems are registered, and wherever they stand `first` is ordered
/// before `second` in every step.
pub open spec fn runs_before(
    plan: Seq<RegistrationView>,
    first: ControllerSystem,
    second: ControllerSystem,
) -> bool {
    &&& registered(plan, first)
    &&& registered(plan, second)
    &&& forall|i: int, j: int, k: int, l: int|
        registered_at(plan, first, i, j) && registered_at(plan, second, k, l) ==> precedes(
            plan,
            i,
            j,
            k,
            l,
        )
}

/// Where `controller_plan` puts each system, if anywhere.
spec fn plan_position(
    driven: bool,
    gather_keyboard: bool,
    sync_time: bool,
    system: ControllerSystem,
) -> Option<(int, int)> {
    let clock: int = if sync_time { 1 } else { 0 };
    let main: int = clock + if gather_keyboard { 1int } else { 0int };
    match system {
        ControllerSystem::SyncControllerTime => if sync_time { Some((0int, 0int)) } else { None },
        ControllerSystem::GatherKeyboardInput => if gather_keyboard { Some((clock, 0int)) } else { None },
        ControllerSystem::ApplyLook => if driven { Some((main, 0int)) } else { None },
        ControllerSystem::HandleGrounded => if driven { Some((main, 1int)) } else { Some((main, 0int)) },
        ControllerSystem::HandleFriction => if driven { Some((main, 2int)) } else { Some((main, 1int)) },
        ControllerSystem::HandleHover => if driven { Some((main, 3int)) } else { Some((main + 1, 0int)) },
        ControllerSystem::HandleMovement => if driven { Some((main, 4int)) } else { Some((main + 1, 1int)) },
        ControllerSystem::HandleJump => if driven { Some((main, 5int)) } else { Some((main + 1, 2int)) },
    }
}

proof fn plan_positions(driven: bool, gather_keyboard: bool, sync_time: bool)
    ensures
        forall|system: ControllerSystem, i: int, j: int|
            #[trigger] registered_at(controller_plan(driven, gather_keyboard, sync_time), system, i, j)
                <==> plan_position(driven, gather_keyboard, sync_time, system) == Some((i, j)),
{
    let plan = controller_plan(driven, gather_keyboard, sync_time);
    assert forall|system: ControllerSystem, i: int, j: int|
        #[trigger] registered_at(plan, system, i, j)
            <==> plan_position(driven, gather_keyboard, sync_time, system) == Some((i, j)) by {
        if 0 <= i < plan.len() && 0 <= j < plan[i].systems.len() {
        }
    }
}

/// Whatever the mode and helpers, one fixed step runs the controller's
/// systems in the same order: grounding, friction, hover, movement, jump.
pub proof fn controller_pipeline_order<L>(settings: PluginSettings<L>)
    ensures
        runs_before(
            settings_plan(settings),
            ControllerSystem::HandleGrounded,
            ControllerSystem::HandleFriction,
        ),
        runs_before(
            settings_plan(settings),
            ControllerSystem::HandleFriction,
            ControllerSystem::HandleHover,
        ),
        runs_before(
            settings_plan(settings),
            ControllerSystem::HandleHover,
            ControllerSystem::HandleMovement,
        ),
        runs_before(
            settings_plan(settings),
            ControllerSystem::HandleMovement,
            ControllerSystem::HandleJump,
        ),
{
    plan_positions(settings.schedule is Some, settings.gather_keyboard, settings.sync_time);
    let d = settings.schedule is Some;
    let k = settings.gather_keyboard;
    let t = settings.sync_time;
    let plan = settings_plan(settings);
    let pairs = seq![
        (ControllerSystem::HandleGrounded, ControllerSystem::HandleFriction),
        (ControllerSystem::HandleFriction, ControllerSystem::HandleHover),
        (ControllerSystem::HandleHover, ControllerSystem::HandleMovement),
        (ControllerSystem::HandleMovement, ControllerSystem::HandleJump),
    ];
    assert forall|n: int| 0 <= n < 4 implies runs_before(plan, #[trigger] pairs[n].0, pairs[n].1) by {
        let (a, b) = pairs[n];
        let (ai, aj) = plan_position(d, k, t, a)->0;
        let (bi, bj) = plan_position(d, k, t, b)->0;
        assert(registered_at(plan, a, ai, aj));
        assert(registered_at(plan, b, bi, bj));
    }
    assert(runs_before(plan, pairs[0].0, pairs[0].1));
    assert(runs_before(plan, pairs[1].0, pairs[1].1));
    assert(runs_before(plan, pairs[2].0, pairs[2].1));
    assert(runs_before(plan, pairs[3].0, pairs[3].1));
}

/// Every system is registered at one place at most; the five controller
/// systems always are; the keyboard reader exactly when it is switched on; the
/// clock mirror exactly when it is switched on; the look step exactly in driven
/// mode.
pub proof fn each_system_registered_once<L>(settings: PluginSettings<L>)
    ensures
        forall|system: ControllerSystem|
            registered_at_most_once(settings_plan(settings), system),
        registered(settings_plan(settings), ControllerSystem::HandleGrounded),
        registered(settings_plan(settings), ControllerSystem::HandleFriction),
        registered(settings_plan(settings), ControllerSystem::HandleHover),
        registered(settings_plan(settings), ControllerSystem::HandleMovement),
        registered(settings_plan(settings), ControllerSystem::HandleJump),
        registered(settings_plan(settings), ControllerSystem::GatherKeyboardInput)
            <==> settings.gather_keyboard,
        registered(settings_plan(settings), ControllerSystem::SyncControllerTime)
            <==> settings.sync_time,
        registered(settings_plan(settings), ControllerSystem::ApplyLook)
            <==> settings.schedule is Some,
{
    let d = settings.schedule is Some;
    let k = settings.gather_keyboard;
    let t = settings.sync_time;
    let plan = settings_plan(settings);
    plan_positions(d, k, t);
    assert forall|system: ControllerSystem|
        plan_position(d, k, t, system) is Some <==> #[trigger] registered(plan, system) by {
        if plan_position(d, k, t, system) is Some {
            let (i, j) = plan_position(d, k, t, system)->0;
            assert(registered_at(plan, system, i, j));
        }
    }
    assert(registered(plan, ControllerSystem::HandleGrounded));
    assert(registered(plan, ControllerSystem::HandleFriction));
    assert(registered(plan, ControllerSystem::HandleHover));
    assert(registered(plan, ControllerSystem::HandleMovement));
    assert(registered(plan, ControllerSystem::HandleJump));
    assert(registered(plan, ControllerSystem::GatherKeyboardInput) <==> k);
    assert(registered(plan, ControllerSystem::SyncControllerTime) <==> t);
    assert(registered(plan, ControllerSystem::ApplyLook) <==> d);
}

/// In driven mode everything but the clock mirror runs in the caller's
/// schedule; right after `in_schedule` nothing reads the keyboard or the fixed
/// clock, so every registration is in the caller's schedule.
pub proof fn driven_mode_runs_in_caller_schedule<L>(settings: PluginSettings<L>, schedule: L)
    ensures
        settings.schedule is Some ==> forall|i: int|
            0 <= i < settings_plan(settings).len() ==> (#[trigger] settings_plan(settings)[i]).slot
                == ScheduleSlot::Driven || settings_plan(settings)[i].systems == seq![
                ControllerSystem::SyncControllerTime,
            ],
        forall|i: int|
            0 <= i < settings_plan(driven_settings(schedule)).len() ==> (#[trigger] settings_plan(
                driven_settings(schedule),
            )[i]).slot == ScheduleSlot::Driven,
        !registered(settings_plan(driven_settings(schedule)), ControllerSystem::GatherKeyboardInput),
        !registered(settings_plan(driven_settings(schedule)), ControllerSystem::SyncControllerTime),
{
    each_system_registered_once(driven_settings(schedule));
}

/// `plan` orders `first` before each of the controller's systems.
pub open spec fn runs_before_controller(plan: Seq<RegistrationView>, first: ControllerSystem) -> bool {
    &&& runs_before(plan, first, ControllerSystem::HandleGrounded)
    &&& runs_before(plan, first, ControllerSystem::HandleFriction)
    &&& runs_before(plan, first, ControllerSystem::HandleHover)
    &&& runs_before(plan, first, ControllerSystem::HandleMovement)
    &&& runs_before(plan, first, ControllerSystem::HandleJump)
}

/// In driven mode the look step runs before the controller's systems, and the
/// keyboard reader, when switched on, before the look step and all of them. In
/// default mode the clock mirror, when switched on, runs before the
/// controller's systems.
pub proof fn helpers_run_before_controller<L>(settings: PluginSettings<L>)
    ensures
        settings.schedule is Some ==> runs_before_controller(
            settings_plan(settings),
            ControllerSystem::ApplyLook,
        ),
        settings.schedule is Some && settings.gather_keyboard ==> runs_before_controller(
            settings_plan(settings),
            ControllerSystem::GatherKeyboardInput,
        ) && runs_before(
            settings_plan(settings),
            ControllerSystem::GatherKeyboardInput,
            ControllerSystem::ApplyLook,
        ),
        settings.schedule is None && settings.sync_time ==> runs_before_controller(
            settings_plan(settings),
            ControllerSystem::SyncControllerTime,
        ),
{
    let d = settings.schedule is Some;
    let k = settings.gather_keyboard;
    let t = settings.sync_time;
    let plan = settings_plan(settings);
    plan_positions(d, k, t);
    let core = seq![
        ControllerSystem::ApplyLook,
        ControllerSystem::HandleGrounded,
        ControllerSystem::HandleFriction,
        ControllerSystem::HandleHover,
        ControllerSystem::HandleMovement,
        ControllerSystem::HandleJump,
    ];
    let helpers = seq![
        ControllerSystem::ApplyLook,
        ControllerSystem::GatherKeyboardInput,
        ControllerSystem::SyncControllerTime,
    ];
    assert forall|h: int, c: int|
        0 <= h < 3 && 0 <= c < 6 && plan_position(d, k, t, helpers[h]) is Some && plan_position(
            d,
            k,
            t,
            core[c],
        ) is Some implies registered(plan, #[trigger] helpers[h]) && registered(
        plan,
        #[trigger] core[c],
    ) by {
        let (hi, hj) = plan_position(d, k, t, helpers[h])->0;
        let (ci, cj) = plan_position(d, k, t, core[c])->0;
        assert(registered_at(plan, helpers[h], hi, hj));
        assert(registered_at(plan, core[c], ci, cj));
    }
    assert(core[0] == ControllerSystem::ApplyLook);
    assert(core[1] == ControllerSystem::HandleGrounded);
    assert(core[2] == ControllerSystem::HandleFriction);
    assert(core[3] == ControllerSystem::HandleHover);
    assert(core[4] == ControllerSystem::HandleMovement);
    assert(core[5] == ControllerSystem::HandleJump);
    assert(helpers[0] == ControllerSystem::ApplyLook);
    assert(helpers[1] == ControllerSystem::GatherKeyboardInput);
    assert(helpers[2] == ControllerSystem::SyncControllerTime);
}

/// Default mode reads the keyboard and mirrors the clock in the fixed
/// schedules; `in_schedule` runs in the given schedule with both helpers off;
/// each toggle sets its own helper to the value given.
pub proof fn builder_settings<L>(settings: PluginSettings<L>, schedule: L, enabled: bool)
    ensures
        default_settings::<L>().schedule is None,
        default_settings::<L>().gather_keyboard,
        default_settings::<L>().sync_time,
        driven_settings(schedule).schedule == Some(schedule),
        !driven_settings(schedule).gather_keyboard,
        !driven_settings(schedule).sync_time,
        keyboard_set(settings, enabled).gather_keyboard == enabled,
        time_sync_set(settings, enabled).sync_time == enabled,
{
}

/// Switching the keyboard reader and the clock mirror are independent: each
/// changes only its own setting, and the order of the two calls does not matter.
pub proof fn toggles_are_independent<L>(settings: PluginSettings<L>, keyboard: bool, time: bool)
    ensures
        keyboard_set(settings, keyboard).schedule == settings.schedule,
        keyboard_set(settings, keyboard).sync_time == settings.sync_time,
        time_sync_set(settings, time).schedule == settings.schedule,
        time_sync_set(settings, time).gather_keyboard == settings.gather_keyboard,
        keyboard_set(time_sync_set(settings, time), keyboard) == time_sync_set(
            keyboard_set(settings, keyboard),
            time,
        ),
{
}

/// Registrations hold at most the clock mirror, the keyboard reader and one or
/// two chains: one registration for each helper switched on, then one chain in
/// driven mode and two in default mode.
pub proof fn plan_length<L>(settings: PluginSettings<L>)
    ensures
        settings_plan(settings).len() == (if settings.sync_time { 1int } else { 0int }) + (if settings.gather_keyboard { 1int } else { 0int }) + (if settings.schedule is Some { 1int } else { 2int }),
{
}

/// When the clock mirror is on, in either mode, it is the first registration,
/// alone in `FixedFirst`, so every step's clock is mirrored before any
/// controller system reads it; no other registration holds it. When it is off,
/// no registration holds it.
pub proof fn clock_mirror_alone_in_fixed_first<L>(settings: PluginSettings<L>)
    ensures
        settings.sync_time ==> settings_plan(settings).len() > 0 && settings_plan(settings)[0].slot
            == ScheduleSlot::FixedFirst && settings_plan(settings)[0].grouping == Grouping::Alone
            && settings_plan(settings)[0].systems =~= seq![ControllerSystem::SyncControllerTime],
        forall|i: int, j: int|
            0 <= i < settings_plan(settings).len() && 0 <= j < settings_plan(settings)[i].systems.len()
                && (#[trigger] settings_plan(settings)[i].systems[j])
                == ControllerSystem::SyncControllerTime ==> settings.sync_time && i == 0 && j == 0,
{
    let plan = settings_plan(settings);
    assert forall|i: int, j: int|
        0 <= i < plan.len() && 0 <= j < plan[i].systems.len() && (#[trigger] plan[i].systems[j])
            == ControllerSystem::SyncControllerTime implies settings.sync_time && i == 0 && j
        == 0 by {
        plan_positions(settings.schedule is Some, settings.gather_keyboard, settings.sync_time);
        assert(registered_at(plan, ControllerSystem::SyncControllerTime, i, j));
    }
}

/// In default mode nothing goes into a caller's schedule: the clock mirror (if
/// on) is in `FixedFirst`, the keyboard reader (if on) alone in
/// `FixedPreUpdate`, then grounding and friction chained in `FixedPreUpdate`
/// and hover, movement and jump chained in `FixedUpdate`. The keyboard reader
/// thus runs before movement and jump, whatever the clock mirror is.
pub proof fn default_mode_uses_fixed_schedules<L>(settings: PluginSettings<L>)
    requires
        settings.schedule is None,
    ensures
        forall|i: int|
            0 <= i < settings_plan(settings).len() ==> (#[trigger] settings_plan(settings)[i]).slot
                != ScheduleSlot::Driven,
        settings_plan(settings).len() >= 2,
        settings_plan(settings)[settings_plan(settings).len() - 2].slot
            == ScheduleSlot::FixedPreUpdate,
        settings_plan(settings)[settings_plan(settings).len() - 2].grouping
            == Grouping::ChainedInControllerSet,
        settings_plan(settings)[settings_plan(settings).len() - 2].systems =~= seq![
            ControllerSystem::HandleGrounded,
            ControllerSystem::HandleFriction,
        ],
        settings_plan(settings)[settings_plan(settings).len() - 1].slot == ScheduleSlot::FixedUpdate,
        settings_plan(settings)[settings_plan(settings).len() - 1].grouping
            == Grouping::ChainedInControllerSet,
        settings_plan(settings)[settings_plan(settings).len() - 1].systems =~= seq![
            ControllerSystem::HandleHover,
            ControllerSystem::HandleMovement,
            ControllerSystem::HandleJump,
        ],
        settings.gather_keyboard ==> {
            let k = if settings.sync_time { 1int } else { 0int };
            &&& settings_plan(settings)[k].slot == ScheduleSlot::FixedPreUpdate
            &&& settings_plan(settings)[k].grouping == Grouping::Alone
            &&& settings_plan(settings)[k].systems =~= seq![ControllerSystem::GatherKeyboardInput]
            &&& runs_before(
                settings_plan(settings),
                ControllerSystem::GatherKeyboardInput,
                ControllerSystem::HandleMovement,
            )
            &&& runs_before(
                settings_plan(settings),
                ControllerSystem::GatherKeyboardInput,
                ControllerSystem::HandleJump,
            )
        },
{
    let d = settings.schedule is Some;
    let k = settings.gather_keyboard;
    let t = settings.sync_time;
    let plan = settings_plan(settings);
    plan_positions(d, k, t);
    if k {
        let (gi, gj) = plan_position(d, k, t, ControllerSystem::GatherKeyboardInput)->0;
        let (mi, mj) = plan_position(d, k, t, ControllerSystem::HandleMovement)->0;
        let (ji, jj) = plan_position(d, k, t, ControllerSystem::HandleJump)->0;
        assert(registered_at(plan, ControllerSystem::GatherKeyboardInput, gi, gj));
        assert(registered_at(plan, ControllerSystem::HandleMovement, mi, mj));
        assert(registered_at(plan, ControllerSystem::HandleJump, ji, jj));
    }
}

/// In driven mode everything but the clock mirror goes into the caller's
/// schedule: the keyboard reader (if on) alone and ordered before the
/// controller's set, then one chain of the look step, grounding, friction,
/// hover, movement and jump, which is the last registration.
pub proof fn driven_mode_single_chain<L>(settings: PluginSettings<L>)
    requires
        settings.schedule is Some,
    ensures
        forall|i: int|
            0 <= i < settings_plan(settings).len() && (#[trigger] settings_plan(settings)[i]).slot
                != ScheduleSlot::Driven ==> i == 0 && settings.sync_time,
        settings_plan(settings).len() >= 1,
        settings_plan(settings)[settings_plan(settings).len() - 1].slot == ScheduleSlot::Driven,
        settings_plan(settings)[settings_plan(settings).len() - 1].grouping
            == Grouping::ChainedInControllerSet,
        settings_plan(settings)[settings_plan(settings).len() - 1].systems =~= seq![
            ControllerSystem::ApplyLook,
            ControllerSystem::HandleGrounded,
            ControllerSystem::HandleFriction,
            ControllerSystem::HandleHover,
            ControllerSystem::HandleMovement,
            ControllerSystem::HandleJump,
        ],
        settings.gather_keyboard ==> {
            let k = if settings.sync_time { 1int } else { 0int };
            &&& settings_plan(settings)[k].slot == ScheduleSlot::Driven
            &&& settings_plan(settings)[k].grouping == Grouping::BeforeControllerSet
            &&& settings_plan(settings)[k].systems =~= seq![ControllerSystem::GatherKeyboardInput]
        },
{
}

} // verus!

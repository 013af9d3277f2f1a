//! Per-tick behavior transition detection for AI bots: which behavior events
//! fire this tick, given the chosen task, what the bot observes, and what it
//! has already announced. Events fire once per transition, not once per tick.
//! A fresh sighting of the player queues a squad-comm relay, delivered to the
//! squadmates once its relay tick is reached.

use vstd::prelude::*;

verus! {

/// The task a bot's thinking stack chose. Tasks the transition detector
/// does not single out are told apart by their index.
#[derive(Clone, Copy, Debug, PartialEq, Eq, Structural)]
pub enum TaskType {
    EngageVisibleEnemy,
    SuppressFire,
    SharpshootTarget,
    FlankTarget,
    MarkThreats,
    HoldCover,
    RetreatToCover,
    DigCover,
    Patrol,
    SetTrap,
    TriageDownedAlly,
    Other(u8),
}

/// Bot archetypes. Archetypes the detector does not single out are told
/// apart by their index.
#[derive(Clone, Copy, Debug, PartialEq, Eq, Structural)]
pub enum Archetype {
    Rifleman,
    Medic,
    Engineer,
    Sniper,
    Spotter,
    Other(u8),
}

/// Why a bot decided to retreat.
#[derive(Clone, Copy, Debug, PartialEq, Eq, Structural)]
pub enum RetreatReason {
    OverWhelmed,
    HpLow,
}

/// Why a bot started seeking cover.
#[derive(Clone, Copy, Debug, PartialEq, Eq, Structural)]
pub enum CoverSeekingReason {
    EmergencyDodge,
    LowHp,
    Fired,
    SquadFlanking,
}

/// What a bot has already announced: the tracking fields of its state that
/// make events fire once per transition.
#[derive(Clone, Copy, Debug, PartialEq, Eq, Structural)]
pub struct BehaviorLatch {
    pub archetype: Archetype,
    pub last_chosen_task: Option<TaskType>,
    pub had_player_visibility: bool,
    pub last_high_ground_emission_task: Option<TaskType>,
    pub last_friendly_fire_avoidance_friendly: Option<u64>,
}

/// A bot's behavior state: what it has announced, and the squad-comm
/// relays waiting for their delay.
#[derive(Clone, Debug)]
pub struct BotState {
    pub latch: BehaviorLatch,
    pub squad_comm_pending: Vec<PendingRelay>,
}

impl BotState {
    /// A fresh bot of `archetype`: no task chosen yet, the player unseen,
    /// nothing announced, no relay pending.
    pub fn new(archetype: Archetype) -> (r: BotState)
        ensures
            r.latch.archetype == archetype,
            r.latch.last_chosen_task is None,
            !r.latch.had_player_visibility,
            r.latch.last_high_ground_emission_task is None,
            r.latch.last_friendly_fire_avoidance_friendly is None,
            r.squad_comm_pending@.len() == 0,
    {
        BotState {
            latch: BehaviorLatch {
                archetype,
                last_chosen_task: None,
                had_player_visibility: false,
                last_high_ground_emission_task: None,
                last_friendly_fire_avoidance_friendly: None,
            },
            squad_comm_pending: Vec::new(),
        }
    }
}

/// What a bot observes this tick.
#[derive(Debug, Clone)]
pub struct BehaviorSignals {
    pub actor_id: u64,
    /// The bot's HP fraction is at or below its personality's retreat threshold.
    pub hp_below_retreat_threshold: bool,
    /// The bot stands on positive elevation.
    pub elevated: bool,
    /// The bot has line of sight on the player this tick.
    pub enemy_visible: bool,
    /// The bot has recently been shot at.
    pub under_fire: bool,
    /// The reactive layer overrode utility this tick.
    pub reactive_override: bool,
    pub player_actor_id: Option<u64>,
    /// Every other faction-allied bot.
    pub squadmates: Vec<u64>,
    /// The tick the engine is processing.
    pub current_tick: u64,
    /// The tick at which a squad-comm relay scheduled this tick becomes
    /// ready, as the squad-comm timing gives it for the current tick and tick
    /// rate.
    pub squad_comm_relay_tick: u64,
    /// A faction-allied actor on the bot's firing line.
    pub friendly_in_line_of_fire: Option<u64>,
}

/// A squad-comm relay waiting for its delay to pass: the bot that spotted
/// the target, the target, the tick it was spotted and the tick the relay
/// becomes ready.
#[derive(Clone, Copy, Debug, PartialEq, Eq, Structural)]
pub struct PendingRelay {
    pub originator_actor_id: u64,
    pub target_actor_id: u64,
    pub trigger_tick: u64,
    pub relay_tick: u64,
}

/// A squad-comm relay delivered this tick.
#[derive(Clone, Debug)]
pub struct SquadCommRelay {
    pub originator_actor_id: u64,
    /// The bot's squadmates at delivery.
    pub receiver_actor_ids: Vec<u64>,
    pub target_actor_id: u64,
    /// Ticks between the sighting and the relay.
    pub delay_ticks: u32,
}

/// A relay as plain values: originator, receivers, target, delay.
pub open spec fn relay_view(r: SquadCommRelay) -> (u64, Seq<u64>, u64, u32) {
    (r.originator_actor_id, r.receiver_actor_ids@, r.target_actor_id, r.delay_ticks)
}

pub open spec fn relay_views(rs: Seq<SquadCommRelay>) -> Seq<(u64, Seq<u64>, u64, u32)> {
    rs.map_values(|r: SquadCommRelay| relay_view(r))
}

/// A pending relay is ready once the tick reaches its relay tick.
pub open spec fn relay_ready(p: PendingRelay, tick: u64) -> bool {
    p.relay_tick <= tick
}

/// Ticks between sighting and relay (zero if the relay tick came first),
/// cut to 32 bits.
pub open spec fn relay_delay(p: PendingRelay) -> u32 {
    (if p.relay_tick >= p.trigger_tick { (p.relay_tick - p.trigger_tick) as u64 } else { 0u64 }) as u32
}

/// The relay delivered for `p` to `squadmates`.
pub open spec fn relay_record(p: PendingRelay, squadmates: Seq<u64>) -> (u64, Seq<u64>, u64, u32) {
    (p.originator_actor_id, squadmates, p.target_actor_id, relay_delay(p))
}

/// The pending relays not yet ready at `tick`, in queue order.
pub open spec fn relays_waiting(q: Seq<PendingRelay>, tick: u64) -> Seq<PendingRelay>
    decreases q.len(),
{
    if q.len() == 0 {
        Seq::empty()
    } else if relay_ready(q.last(), tick) {
        relays_waiting(q.drop_last(), tick)
    } else {
        relays_waiting(q.drop_last(), tick).push(q.last())
    }
}

/// The relays delivered at `tick`: the ready ones, latest queued first.
pub open spec fn relays_delivered(q: Seq<PendingRelay>, tick: u64, squadmates: Seq<u64>) -> Seq<(u64, Seq<u64>, u64, u32)>
    decreases q.len(),
{
    if q.len() == 0 {
        Seq::empty()
    } else if relay_ready(q.last(), tick) {
        seq![relay_record(q.last(), squadmates)] + relays_delivered(q.drop_last(), tick, squadmates)
    } else {
        relays_delivered(q.drop_last(), tick, squadmates)
    }
}

/// The behavior events a tick fires.
#[derive(Clone, Debug)]
pub struct BotBehaviorEmit {
    /// The bot the events are about.
    pub actor_id: u64,
    /// Cover seeking started, with its reason.
    pub cover_seeking_started: Option<CoverSeekingReason>,
    /// Suppression started, against this target.
    pub suppression_started: Option<u64>,
    /// Retreat decided, with its reason.
    pub retreat_decision: Option<RetreatReason>,
    /// The squad-comm relays delivered this tick.
    pub squad_comm_relayed: Vec<SquadCommRelay>,
    /// The patrol route is driven this tick.
    pub patrol_step: bool,
    /// Friendly-fire avoidance around this friendly.
    pub friendly_fire_avoidance: Option<u64>,
    /// High-ground preference applied.
    pub high_ground_preference_applied: bool,
}

pub open spec fn is_cover_task(t: TaskType) -> bool {
    t == TaskType::HoldCover || t == TaskType::RetreatToCover || t == TaskType::DigCover
}

pub open spec fn is_shooting_task(t: TaskType) -> bool {
    t == TaskType::EngageVisibleEnemy || t == TaskType::SuppressFire || t == TaskType::SharpshootTarget
        || t == TaskType::FlankTarget
}

pub open spec fn is_high_ground_task(t: TaskType) -> bool {
    t == TaskType::SharpshootTarget || t == TaskType::MarkThreats
}

pub open spec fn is_high_ground_archetype(a: Archetype) -> bool {
    a == Archetype::Sniper || a == Archetype::Spotter
}

/// The chosen task differs from the last one.
pub open spec fn task_changed(latch: BehaviorLatch, task: TaskType) -> bool {
    latch.last_chosen_task != Some(task)
}

/// Retreat fires on the transition into retreat-to-cover when HP is low or
/// the reactive layer overrode: overwhelmed when it did, HP-low otherwise.
pub open spec fn retreat_of(latch: BehaviorLatch, task: TaskType, s: BehaviorSignals) -> Option<RetreatReason> {
    if task == TaskType::RetreatToCover && task_changed(latch, task)
        && (s.hp_below_retreat_threshold || s.reactive_override) {
        Some(if s.reactive_override { RetreatReason::OverWhelmed } else { RetreatReason::HpLow })
    } else {
        None
    }
}

/// Cover seeking fires on a transition into a cover task: an emergency
/// dodge under reactive override, else low HP (or a retreat), else being
/// fired on, else a squad flanking move.
pub open spec fn cover_seeking_of(latch: BehaviorLatch, task: TaskType, s: BehaviorSignals) -> Option<CoverSeekingReason> {
    if is_cover_task(task) && task_changed(latch, task) {
        Some(
            if s.reactive_override {
                CoverSeekingReason::EmergencyDodge
            } else if s.hp_below_retreat_threshold || task == TaskType::RetreatToCover {
                CoverSeekingReason::LowHp
            } else if s.under_fire {
                CoverSeekingReason::Fired
            } else {
                CoverSeekingReason::SquadFlanking
            },
        )
    } else {
        None
    }
}

/// Suppression fires on the transition into suppressive fire, against the
/// player (0 when unknown).
pub open spec fn suppression_of(latch: BehaviorLatch, task: TaskType, s: BehaviorSignals) -> Option<u64> {
    if task == TaskType::SuppressFire && task_changed(latch, task) {
        Some(
            match s.player_actor_id {
                Some(p) => p,
                None => 0,
            },
        )
    } else {
        None
    }
}

/// Friendly-fire avoidance fires while shooting with a friendly in the line
/// of fire, once per friendly until the line clears.
pub open spec fn friendly_fire_of(latch: BehaviorLatch, task: TaskType, s: BehaviorSignals) -> Option<u64> {
    match s.friendly_in_line_of_fire {
        Some(f) => if is_shooting_task(task) && latch.last_friendly_fire_avoidance_friendly != Some(f) {
            Some(f)
        } else {
            None
        },
        None => None,
    }
}

/// The friendly last warned about after this tick: the one just warned
/// about, unchanged while a friendly stays in the line of fire, cleared
/// when the line clears.
pub open spec fn next_friendly_latch(latch: BehaviorLatch, task: TaskType, s: BehaviorSignals) -> Option<u64> {
    match s.friendly_in_line_of_fire {
        Some(f) => if friendly_fire_of(latch, task, s) is Some {
            Some(f)
        } else {
            latch.last_friendly_fire_avoidance_friendly
        },
        None => None,
    }
}

/// High-ground preference applies when a sniper or spotter on elevation
/// moves into a high-ground task it has not yet announced.
pub open spec fn high_ground_of(latch: BehaviorLatch, task: TaskType, s: BehaviorSignals) -> bool {
    is_high_ground_archetype(latch.archetype) && is_high_ground_task(task)
        && latch.last_high_ground_emission_task != Some(task) && s.elevated
}

/// The high-ground task last announced after this tick: the task just
/// announced, cleared outside high-ground tasks, else unchanged.
pub open spec fn next_high_ground_latch(latch: BehaviorLatch, task: TaskType, s: BehaviorSignals) -> Option<TaskType> {
    if high_ground_of(latch, task, s) {
        Some(task)
    } else if !is_high_ground_task(task) {
        None
    } else {
        latch.last_high_ground_emission_task
    }
}

/// A squad-comm relay about the player is scheduled when the player comes
/// into view, the bot has squadmates and the player is known.
pub open spec fn squad_comm_of(latch: BehaviorLatch, s: BehaviorSignals) -> Option<PendingRelay> {
    if s.enemy_visible && !latch.had_player_visibility && s.squadmates@.len() > 0 && s.player_actor_id is Some {
        Some(
            PendingRelay {
                originator_actor_id: s.actor_id,
                target_actor_id: s.player_actor_id->0,
                trigger_tick: s.current_tick,
                relay_tick: s.squad_comm_relay_tick,
            },
        )
    } else {
        None
    }
}

/// The relay queue with this tick's new relay, if any, at its end.
pub open spec fn queued_relays(latch: BehaviorLatch, pending: Seq<PendingRelay>, s: BehaviorSignals) -> Seq<PendingRelay> {
    match squad_comm_of(latch, s) {
        Some(p) => pending.push(p),
        None => pending,
    }
}

/// What the bot has announced after this tick.
pub open spec fn next_latch(latch: BehaviorLatch, task: TaskType, s: BehaviorSignals) -> BehaviorLatch {
    BehaviorLatch {
        archetype: latch.archetype,
        last_chosen_task: Some(task),
        had_player_visibility: s.enemy_visible,
        last_high_ground_emission_task: next_high_ground_latch(latch, task, s),
        last_friendly_fire_avoidance_friendly: next_friendly_latch(latch, task, s),
    }
}

/// A bot that stays in the same task fires no second retreat, cover-seeking
/// or suppression event: those fire once per transition, not once per tick.
pub proof fn transition_events_fire_once(
    latch: BehaviorLatch,
    task: TaskType,
    first: BehaviorSignals,
    second: BehaviorSignals,
)
    ensures
        retreat_of(next_latch(latch, task, first), task, second) is None,
        cover_seeking_of(next_latch(latch, task, first), task, second) is None,
        suppression_of(next_latch(latch, task, first), task, second) is None,
{
}

/// Once a bot has warned about a friendly in its line of fire, it does not
/// warn about that friendly again while the friendly stays in the line.
pub proof fn friendly_fire_warned_once_per_friendly(
    latch: BehaviorLatch,
    task: TaskType,
    first: BehaviorSignals,
    next_task: TaskType,
    second: BehaviorSignals,
    friendly: u64,
)
    requires
        friendly_fire_of(latch, task, first) == Some(friendly),
        second.friendly_in_line_of_fire == Some(friendly),
    ensures
        friendly_fire_of(next_latch(latch, task, first), next_task, second) is None,
{
}

/// When the line of fire clears, the warning is re-armed: the next time the
/// bot shoots with a friendly in the line, it warns again.
pub proof fn friendly_fire_rearms_when_line_clears(
    latch: BehaviorLatch,
    task: TaskType,
    first: BehaviorSignals,
    next_task: TaskType,
    second: BehaviorSignals,
    friendly: u64,
)
    requires
        first.friendly_in_line_of_fire is None,
        second.friendly_in_line_of_fire == Some(friendly),
        is_shooting_task(next_task),
    ensures
        friendly_fire_of(next_latch(latch, task, first), next_task, second) == Some(friendly),
{
}

/// High-ground preference applies once per high-ground task: a sniper or
/// spotter that stays in the task does not apply it again.
pub proof fn high_ground_applies_once(
    latch: BehaviorLatch,
    task: TaskType,
    first: BehaviorSignals,
    second: BehaviorSignals,
)
    requires
        high_ground_of(latch, task, first),
    ensures
        !high_ground_of(next_latch(latch, task, first), task, second),
{
}

/// A squad-comm relay is scheduled only when the player comes into view:
/// a bot that already saw the player last tick schedules none.
pub proof fn squad_comm_only_on_first_sighting(
    latch: BehaviorLatch,
    task: TaskType,
    first: BehaviorSignals,
    second: BehaviorSignals,
)
    requires
        first.enemy_visible,
    ensures
        squad_comm_of(next_latch(latch, task, first), second) is None,
{
}

/// Delivery neither loses nor duplicates relays: every queued relay is
/// either delivered or still waiting, never both.
pub proof fn relay_queue_conserved(q: Seq<PendingRelay>, tick: u64, squadmates: Seq<u64>)
    ensures
        relays_waiting(q, tick).len() + relays_delivered(q, tick, squadmates).len() == q.len(),
    decreases q.len(),
{
    if q.len() > 0 {
        relay_queue_conserved(q.drop_last(), tick, squadmates);
    }
}

/// No relay that is ready stays in the queue after delivery, so a relay is
/// delivered at most once.
pub proof fn no_ready_relay_waits(q: Seq<PendingRelay>, tick: u64)
    ensures
        forall|i: int| 0 <= i < relays_waiting(q, tick).len() ==> !relay_ready(#[trigger] relays_waiting(q, tick)[i], tick),
    decreases q.len(),
{
    if q.len() > 0 {
        no_ready_relay_waits(q.drop_last(), tick);
        let w = relays_waiting(q.drop_last(), tick);
        assert forall|i: int| 0 <= i < relays_waiting(q, tick).len() implies !relay_ready(
            #[trigger] relays_waiting(q, tick)[i],
            tick,
        ) by {
            if i < w.len() {
                assert(relays_waiting(q, tick)[i] == w[i]);
            }
        }
    }
}

/// A queued relay whose delay has not passed keeps waiting.
pub proof fn relay_waits_until_ready(q: Seq<PendingRelay>, tick: u64, p: PendingRelay)
    requires
        q.contains(p),
        !relay_ready(p, tick),
    ensures
        relays_waiting(q, tick).contains(p),
    decreases q.len(),
{
    if q.last() == p {
        assert(relays_waiting(q, tick).last() == p);
    } else {
        let k = choose|k: int| 0 <= k < q.len() && q[k] == p;
        assert(q.drop_last()[k] == p);
        relay_waits_until_ready(q.drop_last(), tick, p);
        let w = relays_waiting(q.drop_last(), tick);
        let j = choose|j: int| 0 <= j < w.len() && w[j] == p;
        if !relay_ready(q.last(), tick) {
            assert(relays_waiting(q, tick)[j] == p);
        }
    }
}

/// A queued relay whose delay has passed is delivered, from its originator
/// to the squadmates, with its delay.
pub proof fn ready_relay_delivered(q: Seq<PendingRelay>, tick: u64, squadmates: Seq<u64>, p: PendingRelay)
    requires
        q.contains(p),
        relay_ready(p, tick),
    ensures
        relays_delivered(q, tick, squadmates).contains(relay_record(p, squadmates)),
    decreases q.len(),
{
    if q.last() == p {
        assert(relays_delivered(q, tick, squadmates)[0] == relay_record(p, squadmates));
    } else {
        let k = choose|k: int| 0 <= k < q.len() && q[k] == p;
        assert(q.drop_last()[k] == p);
        ready_relay_delivered(q.drop_last(), tick, squadmates, p);
        let d = relays_delivered(q.drop_last(), tick, squadmates);
        let j = choose|j: int| 0 <= j < d.len() && d[j] == relay_record(p, squadmates);
        if relay_ready(q.last(), tick) {
            assert(relays_delivered(q, tick, squadmates)[j + 1] == relay_record(p, squadmates));
        }
    }
}

/// Friendly-fire avoidance is about shooting: with a friendly in the line of
/// fire that it has not yet warned about, a bot warns exactly when its task
/// is engaging a visible enemy, suppressive fire, sharpshooting or flanking.
pub proof fn friendly_fire_warns_in_exactly_shooting_tasks(
    latch: BehaviorLatch,
    task: TaskType,
    s: BehaviorSignals,
    friendly: u64,
)
    requires
        s.friendly_in_line_of_fire == Some(friendly),
        latch.last_friendly_fire_avoidance_friendly != Some(friendly),
    ensures
        (task == TaskType::EngageVisibleEnemy || task == TaskType::SuppressFire || task
            == TaskType::SharpshootTarget || task == TaskType::FlankTarget) ==> friendly_fire_of(latch, task, s)
            == Some(friendly),
        !(task == TaskType::EngageVisibleEnemy || task == TaskType::SuppressFire || task
            == TaskType::SharpshootTarget || task == TaskType::FlankTarget) ==> friendly_fire_of(latch, task, s)
            is None,
{
}

/// No friendly in the line of fire, no warning, whatever the task.
pub proof fn friendly_fire_needs_a_friendly_in_line(latch: BehaviorLatch, task: TaskType, s: BehaviorSignals)
    requires
        s.friendly_in_line_of_fire is None,
    ensures
        friendly_fire_of(latch, task, s) is None,
        next_latch(latch, task, s).last_friendly_fire_avoidance_friendly is None,
{
}

/// On a change of task, cover seeking starts exactly when the new task is
/// holding cover, retreating to cover or digging cover.
pub proof fn cover_seeking_starts_in_exactly_cover_tasks(latch: BehaviorLatch, task: TaskType, s: BehaviorSignals)
    requires
        latch.last_chosen_task != Some(task),
    ensures
        cover_seeking_of(latch, task, s) is Some <==> (task == TaskType::HoldCover || task
            == TaskType::RetreatToCover || task == TaskType::DigCover),
        (task == TaskType::HoldCover || task == TaskType::DigCover) && !s.reactive_override
            && !s.hp_below_retreat_threshold && s.under_fire ==> cover_seeking_of(latch, task, s)
            == Some(CoverSeekingReason::Fired),
        task == TaskType::RetreatToCover && !s.reactive_override ==> cover_seeking_of(latch, task, s) == Some(
            CoverSeekingReason::LowHp,
        ),
        (task == TaskType::HoldCover || task == TaskType::RetreatToCover || task == TaskType::DigCover)
            && s.reactive_override ==> cover_seeking_of(latch, task, s) == Some(CoverSeekingReason::EmergencyDodge),
{
}

/// On a change of task, suppression starts exactly on moving into
/// suppressive fire, against the player when the player is known.
pub proof fn suppression_starts_exactly_on_suppress_fire(latch: BehaviorLatch, task: TaskType, s: BehaviorSignals)
    requires
        latch.last_chosen_task != Some(task),
    ensures
        suppression_of(latch, task, s) is Some <==> task == TaskType::SuppressFire,
        task == TaskType::SuppressFire ==> suppression_of(latch, task, s) == Some(
            match s.player_actor_id {
                Some(p) => p,
                None => 0u64,
            },
        ),
{
}

/// On a change of task into retreat-to-cover, a retreat is decided exactly
/// when HP is at or below the threshold or the reactive layer overrode; no
/// other task decides a retreat.
pub proof fn retreat_decided_exactly_on_retreat_to_cover(latch: BehaviorLatch, task: TaskType, s: BehaviorSignals)
    requires
        latch.last_chosen_task != Some(task),
    ensures
        task != TaskType::RetreatToCover ==> retreat_of(latch, task, s) is None,
        task == TaskType::RetreatToCover ==> (retreat_of(latch, task, s) is Some <==> (s.hp_below_retreat_threshold
            || s.reactive_override)),
        task == TaskType::RetreatToCover && s.reactive_override ==> retreat_of(latch, task, s) == Some(
            RetreatReason::OverWhelmed,
        ),
        task == TaskType::RetreatToCover && s.hp_below_retreat_threshold && !s.reactive_override ==> retreat_of(
            latch,
            task,
            s,
        ) == Some(RetreatReason::HpLow),
{
}

/// High-ground preference is for snipers and spotters on elevation: on a
/// high-ground task not yet announced, it applies exactly when the task is
/// sharpshooting or marking threats, the archetype is sniper or spotter and
/// the bot is elevated.
pub proof fn high_ground_applies_exactly_for_sniper_and_spotter(
    latch: BehaviorLatch,
    task: TaskType,
    s: BehaviorSignals,
)
    requires
        latch.last_high_ground_emission_task != Some(task),
    ensures
        high_ground_of(latch, task, s) <==> ((task == TaskType::SharpshootTarget || task == TaskType::MarkThreats)
            && (latch.archetype == Archetype::Sniper || latch.archetype == Archetype::Spotter) && s.elevated),
{
}

fn is_cover(t: TaskType) -> (r: bool)
    ensures
        r == is_cover_task(t),
{
    match t {
        TaskType::HoldCover | TaskType::RetreatToCover | TaskType::DigCover => true,
        _ => false,
    }
}

fn is_shooting(t: TaskType) -> (r: bool)
    ensures
        r == is_shooting_task(t),
{
    match t {
        TaskType::EngageVisibleEnemy | TaskType::SuppressFire | TaskType::SharpshootTarget
        | TaskType::FlankTarget => true,
        _ => false,
    }
}

fn is_high_ground(t: TaskType) -> (r: bool)
    ensures
        r == is_high_ground_task(t),
{
    match t {
        TaskType::SharpshootTarget | TaskType::MarkThreats => true,
        _ => false,
    }
}

/// Splits the relay queue at `tick`: the relays not yet ready, in queue
/// order, and the ready ones delivered to `squadmates`, latest queued first.
fn deliver_ready_relays(
    queue: &Vec<PendingRelay>,
    tick: u64,
    squadmates: &Vec<u64>,
) -> (r: (Vec<PendingRelay>, Vec<SquadCommRelay>))
    ensures
        r.0@ == relays_waiting(queue@, tick),
        relay_views(r.1@) == relays_delivered(queue@, tick, squadmates@),
{
    let mut waiting: Vec<PendingRelay> = Vec::new();
    let mut delivered: Vec<SquadCommRelay> = Vec::new();
    let mut i: usize = 0;
    while i < queue.len()
        invariant
            i <= queue@.len(),
            waiting@ == relays_waiting(queue@.take(i as int), tick),
            relay_views(delivered@) == relays_delivered(queue@.take(i as int), tick, squadmates@),
        decreases queue@.len() - i,
    {
        let p = queue[i];
        let ghost before = queue@.take(i as int);
        let ghost after = queue@.take(i as int + 1);
        assert(after.drop_last() =~= before);
        assert(after.last() == p);
        if p.relay_tick <= tick {
            let delay: u64 = p.relay_tick.saturating_sub(p.trigger_tick);
            let relay = SquadCommRelay {
                originator_actor_id: p.originator_actor_id,
                receiver_actor_ids: squadmates.clone(),
                target_actor_id: p.target_actor_id,
                delay_ticks: delay as u32,
            };
            assert(relay.receiver_actor_ids@ =~= squadmates@);
            assert(relay_view(relay) == relay_record(p, squadmates@));
            let ghost old_delivered = delivered@;
            delivered.insert(0, relay);
            assert(relay_views(delivered@) =~= seq![relay_view(relay)] + relay_views(old_delivered));
        } else {
            waiting.push(p);
        }
        i = i + 1;
    }
    assert(queue@.take(queue@.len() as int) =~= queue@);
    (waiting, delivered)
}

/// Detects this tick's behavior transitions for a bot that chose
/// `chosen_task`, records what was announced, queues a squad-comm relay on
/// a fresh sighting and delivers the relays that are ready.
pub fn detect_behavior_transitions(
    bot: &mut BotState,
    chosen_task: TaskType,
    signals: &BehaviorSignals,
) -> (r: BotBehaviorEmit)
    ensures
        r.retreat_decision == retreat_of(old(bot).latch, chosen_task, *signals),
        r.cover_seeking_started == cover_seeking_of(old(bot).latch, chosen_task, *signals),
        r.suppression_started == suppression_of(old(bot).latch, chosen_task, *signals),
        r.friendly_fire_avoidance == friendly_fire_of(old(bot).latch, chosen_task, *signals),
        r.high_ground_preference_applied == high_ground_of(old(bot).latch, chosen_task, *signals),
        relay_views(r.squad_comm_relayed@) == relays_delivered(
            queued_relays(old(bot).latch, old(bot).squad_comm_pending@, *signals),
            signals.current_tick,
            signals.squadmates@,
        ),
        r.patrol_step == (chosen_task == TaskType::Patrol),
        r.actor_id == signals.actor_id,
        final(bot).latch == next_latch(old(bot).latch, chosen_task, *signals),
        final(bot).squad_comm_pending@ == relays_waiting(
            queued_relays(old(bot).latch, old(bot).squad_comm_pending@, *signals),
            signals.current_tick,
        ),
{
    let mut latch: BehaviorLatch = bot.latch;
    let task = chosen_task;
    let changed = match latch.last_chosen_task {
        Some(prev) => prev != task,
        None => true,
    };

    let retreat_decided = task == TaskType::RetreatToCover && changed
        && (signals.hp_below_retreat_threshold || signals.reactive_override);
    let retreat_decision = if retreat_decided {
        if signals.reactive_override {
            Some(RetreatReason::OverWhelmed)
        } else {
            Some(RetreatReason::HpLow)
        }
    } else {
        None
    };

    let cover_seeking_started = if is_cover(task) && changed {
        if signals.reactive_override {
            Some(CoverSeekingReason::EmergencyDodge)
        } else if signals.hp_below_retreat_threshold || task == TaskType::RetreatToCover {
            Some(CoverSeekingReason::LowHp)
        } else if signals.under_fire {
            Some(CoverSeekingReason::Fired)
        } else {
            Some(CoverSeekingReason::SquadFlanking)
        }
    } else {
        None
    };

    let suppression_started = if task == TaskType::SuppressFire && changed {
        match signals.player_actor_id {
            Some(p) => Some(p),
            None => Some(0),
        }
    } else {
        None
    };

    let mut friendly_fire_avoidance: Option<u64> = None;
    match signals.friendly_in_line_of_fire {
        Some(friendly) => {
            let already = match latch.last_friendly_fire_avoidance_friendly {
                Some(f) => f == friendly,
                None => false,
            };
            if is_shooting(task) && !already {
                friendly_fire_avoidance = Some(friendly);
                latch.last_friendly_fire_avoidance_friendly = Some(friendly);
            }
        },
        None => {
            latch.last_friendly_fire_avoidance_friendly = None;
        },
    }

    let high_ground_archetype = match latch.archetype {
        Archetype::Sniper | Archetype::Spotter => true,
        _ => false,
    };
    let high_ground_task = is_high_ground(task);
    let fresh_high_ground = match latch.last_high_ground_emission_task {
        Some(t) => t != task,
        None => true,
    };
    let mut high_ground_preference_applied = false;
    if high_ground_archetype && high_ground_task && fresh_high_ground && signals.elevated {
        high_ground_preference_applied = true;
        latch.last_high_ground_emission_task = Some(task);
    } else if !high_ground_task {
        latch.last_high_ground_emission_task = None;
    }

    if signals.enemy_visible && !latch.had_player_visibility && signals.squadmates.len() > 0 {
        if let Some(target) = signals.player_actor_id {
            bot.squad_comm_pending.push(
                PendingRelay {
                    originator_actor_id: signals.actor_id,
                    target_actor_id: target,
                    trigger_tick: signals.current_tick,
                    relay_tick: signals.squad_comm_relay_tick,
                },
            );
        }
    }
    latch.had_player_visibility = signals.enemy_visible;
    let (waiting, squad_comm_relayed) = deliver_ready_relays(
        &bot.squad_comm_pending,
        signals.current_tick,
        &signals.squadmates,
    );
    bot.squad_comm_pending = waiting;

    let patrol_step = task == TaskType::Patrol;
    latch.last_chosen_task = Some(task);
    bot.latch = latch;
    BotBehaviorEmit {
        actor_id: signals.actor_id,
        cover_seeking_started,
        suppression_started,
        retreat_decision,
        squad_comm_relayed,
        patrol_step,
        friendly_fire_avoidance,
        high_ground_preference_applied,
    }
}

} // verus!

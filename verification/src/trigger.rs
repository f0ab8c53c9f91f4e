//! The trigger daemon protocol: key edges from the platform feed a pressed
//! set; each poll tick evaluates the hotkey against it and fires at most
//! once per transition into the matched state, governed by the listening
//! flag. A persistent daemon re-arms itself after firing; a one-shot one
//! stays disarmed.

use vstd::prelude::*;

use crate::hotkey::HotKey;
use crate::keys::KeyCode;

verus! {

/// One key edge: a press or a release of a canonical key.
#[derive(Debug, Clone, Copy, PartialEq, Eq, Structural)]
pub struct KeyAction {
    pub key: KeyCode,
    pub pressed: bool,
}

/// The pressed set after one edge: a press appends the key, a release
/// removes every occurrence of it.
pub open spec fn spec_apply_edge(pressed: Seq<KeyCode>, a: KeyAction) -> Seq<KeyCode> {
    if a.pressed {
        pressed.push(a.key)
    } else {
        spec_remove_key(pressed, a.key)
    }
}

/// The sequence with every occurrence of `k` removed, order kept.
pub open spec fn spec_remove_key(s: Seq<KeyCode>, k: KeyCode) -> Seq<KeyCode>
    decreases s.len(),
{
    if s.len() == 0 {
        s
    } else {
        let rest = spec_remove_key(s.drop_last(), k);
        if s.last() == k {
            rest
        } else {
            rest.push(s.last())
        }
    }
}

/// The pressed set after a whole batch of edges, oldest first.
pub open spec fn spec_apply_edges(pressed: Seq<KeyCode>, edges: Seq<KeyAction>) -> Seq<KeyCode>
    decreases edges.len(),
{
    if edges.len() == 0 {
        pressed
    } else {
        spec_apply_edges(spec_apply_edge(pressed, edges[0]), edges.drop_first())
    }
}

pub proof fn lemma_apply_edges_push(pressed: Seq<KeyCode>, edges: Seq<KeyAction>, a: KeyAction)
    ensures
        spec_apply_edges(pressed, edges.push(a)) == spec_apply_edge(
            spec_apply_edges(pressed, edges),
            a,
        ),
    decreases edges.len(),
{
    reveal_with_fuel(spec_apply_edges, 2);
    if edges.len() == 0 {
        assert(edges.push(a)[0] == a);
        assert(edges.push(a).drop_first() =~= Seq::<KeyAction>::empty());
    } else {
        assert(edges.push(a)[0] == edges[0]);
        assert(edges.push(a).drop_first() =~= edges.drop_first().push(a));
        lemma_apply_edges_push(spec_apply_edge(pressed, edges[0]), edges.drop_first(), a);
    }
}

/// The daemon's state as mathematics: what the contracts below speak of.
pub struct DaemonModel {
    pub hotkey: HotKey,
    pub pressed: Seq<KeyCode>,
    pub listening: bool,
    pub persistent: bool,
}

/// Whether a tick of a daemon in this state fires.
pub open spec fn spec_fires(m: DaemonModel) -> bool {
    m.listening && m.hotkey.spec_check(m.pressed)
}

/// One poll tick: the batch of edges is applied, then the hotkey is
/// evaluated once. On a fire the pressed set is cleared and the daemon
/// stays armed only if it is persistent.
pub open spec fn spec_tick(m: DaemonModel, edges: Seq<KeyAction>) -> (DaemonModel, bool) {
    let p2 = spec_apply_edges(m.pressed, edges);
    let after = DaemonModel { pressed: p2, ..m };
    if spec_fires(after) {
        (DaemonModel { pressed: Seq::<KeyCode>::empty(), listening: m.persistent, ..m }, true)
    } else {
        (after, false)
    }
}

/// How many ticks of a whole run fire.
pub open spec fn spec_run_fires(m: DaemonModel, batches: Seq<Seq<KeyAction>>) -> nat
    decreases batches.len(),
{
    if batches.len() == 0 {
        0
    } else {
        let (m2, fired) = spec_tick(m, batches[0]);
        (if fired {
            1nat
        } else {
            0nat
        }) + spec_run_fires(m2, batches.drop_first())
    }
}

/// The background trigger: owns the pressed set and the matching hotkey;
/// it is the only writer of either.
#[derive(Debug)]
pub struct Daemon {
    pub hotkey: HotKey,
    pub pressed: Vec<KeyCode>,
    pub listening: bool,
    pub persistent: bool,
}

impl Daemon {
    pub open spec fn model(self) -> DaemonModel {
        DaemonModel {
            hotkey: self.hotkey,
            pressed: self.pressed@,
            listening: self.listening,
            persistent: self.persistent,
        }
    }

    /// A fresh daemon: armed, nothing pressed.
    pub fn new(hotkey: HotKey, persistent: bool) -> (r: Daemon)
        ensures
            r.model() == (DaemonModel {
                hotkey,
                pressed: Seq::<KeyCode>::empty(),
                listening: true,
                persistent,
            }),
    {
        Daemon { hotkey, pressed: Vec::new(), listening: true, persistent }
    }

    /// Re-arms the daemon explicitly; nothing else changes.
    pub fn start_listening(&mut self)
        ensures
            final(self).model() == (DaemonModel { listening: true, ..old(self).model() }),
    {
        self.listening = true;
    }

    /// Applies one key edge to the pressed set.
    pub fn apply_edge(&mut self, a: KeyAction)
        ensures
            final(self).model() == (DaemonModel {
                pressed: spec_apply_edge(old(self).model().pressed, a),
                ..old(self).model()
            }),
    {
        if a.pressed {
            self.pressed.push(a.key);
        } else {
            let mut kept: Vec<KeyCode> = Vec::new();
            let mut i: usize = 0;
            while i < self.pressed.len()
                invariant
                    i <= self.pressed.len(),
                    kept@ == spec_remove_key(self.pressed@.take(i as int), a.key),
                decreases self.pressed.len() - i,
            {
                proof {
                    assert(self.pressed@.take(i + 1).drop_last() =~= self.pressed@.take(i as int));
                    assert(self.pressed@.take(i + 1).last() == self.pressed@[i as int]);
                }
                if self.pressed[i] != a.key {
                    kept.push(self.pressed[i]);
                }
                i += 1;
            }
            proof {
                assert(self.pressed@.take(self.pressed@.len() as int) =~= self.pressed@);
            }
            self.pressed = kept;
        }
    }

    /// Evaluates the hotkey once: true exactly when the daemon is armed and
    /// the pressed set matches. On a fire the pressed set is cleared and the
    /// armed flag drops; it is only raised again by `start_listening`.
    pub fn get_pressed(&mut self) -> (r: bool)
        ensures
            r == spec_fires(old(self).model()),
            r ==> final(self).model() == (DaemonModel {
                pressed: Seq::<KeyCode>::empty(),
                listening: false,
                ..old(self).model()
            }),
            !r ==> final(self).model() == old(self).model(),
    {
        let fired = self.listening && self.hotkey.check(&self.pressed);
        if fired {
            self.pressed = Vec::new();
            self.listening = false;
        }
        fired
    }

    /// One poll tick: drains a batch of edges, evaluates once, and re-arms
    /// after a fire only in persistent mode.
    pub fn tick(&mut self, edges: &Vec<KeyAction>) -> (r: bool)
        ensures
            (final(self).model(), r) == spec_tick(old(self).model(), edges@),
    {
        let ghost m0 = self.model();
        let mut i: usize = 0;
        while i < edges.len()
            invariant
                i <= edges.len(),
                self.hotkey == m0.hotkey,
                self.listening == m0.listening,
                self.persistent == m0.persistent,
                self.pressed@ == spec_apply_edges(m0.pressed, edges@.take(i as int)),
            decreases edges.len() - i,
        {
            proof {
                assert(edges@.take(i + 1) =~= edges@.take(i as int).push(edges@[i as int]));
                lemma_apply_edges_push(m0.pressed, edges@.take(i as int), edges@[i as int]);
            }
            self.apply_edge(edges[i]);
            i += 1;
        }
        proof {
            assert(edges@.take(edges@.len() as int) =~= edges@);
        }
        let fired = self.get_pressed();
        if fired && self.persistent {
            self.start_listening();
        }
        fired
    }
}

/// A disarmed one-shot daemon never fires again: no batch of edges can
/// raise the listening flag from inside a run.
proof fn lemma_disarmed_stays_silent(m: DaemonModel, batches: Seq<Seq<KeyAction>>)
    requires
        !m.listening,
        !m.persistent,
    ensures
        spec_run_fires(m, batches) == 0,
    decreases batches.len(),
{
    if batches.len() > 0 {
        let (m2, fired) = spec_tick(m, batches[0]);
        lemma_disarmed_stays_silent(m2, batches.drop_first());
    }
}

/// Daemon re-arm, one-shot half: over any run of poll ticks, a one-shot
/// daemon fires at most once, however long the hotkey stays held.
pub proof fn lemma_one_shot_fires_once(m: DaemonModel, batches: Seq<Seq<KeyAction>>)
    requires
        !m.persistent,
    ensures
        spec_run_fires(m, batches) <= 1,
    decreases batches.len(),
{
    if batches.len() > 0 {
        let (m2, fired) = spec_tick(m, batches[0]);
        if fired {
            lemma_disarmed_stays_silent(m2, batches.drop_first());
        } else {
            lemma_one_shot_fires_once(m2, batches.drop_first());
        }
    }
}

/// Daemon re-arm, persistent half: a persistent daemon that fires re-arms
/// itself, so a later tick whose edges rebuild a matching pressed set (a
/// release and a fresh press) fires a second time.
pub proof fn lemma_persistent_refire(m: DaemonModel, b1: Seq<KeyAction>, b2: Seq<KeyAction>)
    requires
        m.persistent,
        m.listening,
        m.hotkey.spec_check(spec_apply_edges(m.pressed, b1)),
        m.hotkey.spec_check(spec_apply_edges(Seq::<KeyCode>::empty(), b2)),
    ensures
        spec_tick(m, b1).1,
        spec_tick(spec_tick(m, b1).0, b2).1,
{
}

/// How a process-spawn attempt ended, as the platform reports it back.
#[derive(Debug, Clone, PartialEq, Eq)]
pub enum SpawnOutcome {
    Started,
    NotFound,
    Failed(String),
}

/// The daemon's error taxonomy for the hand-off: a missing executable is
/// its own, user-visible case, apart from any other spawn failure.
#[derive(Debug, Clone, PartialEq, Eq)]
pub enum DaemonError {
    SpawnNotFound,
    SpawnFailed(String),
}

/// Maps a spawn outcome into the daemon's error taxonomy, keeping the
/// platform's message for the general failure.
pub fn interpret_spawn(outcome: SpawnOutcome) -> (r: Result<(), DaemonError>)
    ensures
        (outcome == SpawnOutcome::Started <==> r is Ok),
        (outcome == SpawnOutcome::NotFound <==> r == Err::<(), DaemonError>(
            DaemonError::SpawnNotFound,
        )),
        (outcome matches SpawnOutcome::Failed(m) ==> (r matches Err(e) && e matches
            DaemonError::SpawnFailed(m2) && m2@ == m@)),
{
    match outcome {
        SpawnOutcome::Started => Ok(()),
        SpawnOutcome::NotFound => Err(DaemonError::SpawnNotFound),
        SpawnOutcome::Failed(m) => Err(DaemonError::SpawnFailed(m)),
    }
}

} // verus!

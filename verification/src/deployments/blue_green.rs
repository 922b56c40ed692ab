//! Blue/green deploys: a new ("green") container is started beside the old
//! one and must pass its health check before the old one is taken down;
//! then the site's container is recreated under its own name.
//!
//! The deploy alternates Docker calls and decisions. The decisions are the
//! step function here: from the run's state and what the last call gave, the
//! next state and the next call. The caller performs each call and hands its
//! outcome back.
use vstd::prelude::*;

use crate::text::{concat2, concat3, opt_view, owned};

verus! {

#[derive(Clone, Copy, Debug, PartialEq, Eq, Structural)]
pub enum BgPhase {
    Announcing,
    Deploying,
    CreatingGreen,
    ConnectingGreen,
    StartingGreen,
    CheckingGreen,
    RollbackStopGreen,
    RollbackRemoveGreen,
    StoppingOld,
    RemovingOld,
    StoppingGreen,
    RemovingGreen,
    CreatingFinal,
    ConnectingFinal,
    StartingFinal,
    Saving,
    AnnouncingDone,
    Done,
    Failed,
}

/// A blue/green deploy in progress.
pub struct BlueGreenRun {
    pub phase: BgPhase,
    pub site_id: String,
    /// The container that serves the site now, if any.
    pub old_id: Option<String>,
    pub green_name: String,
    pub green_id: Option<String>,
    pub final_id: Option<String>,
    /// Containers are also connected to the proxy's network.
    pub attach_proxy: bool,
    pub has_network: bool,
    pub has_volume: bool,
    /// The green container passed its health check.
    pub green_ready: bool,
    /// Why the health check failed while the run rolls back; once the run
    /// failed, why it failed.
    pub error: String,
}

/// What the last call gave.
pub enum BgEvent {
    Done,
    Created(String),
    Failed(String),
}

/// The next call.
pub enum BgAction {
    /// Tell the plugins that a blue/green deploy of the site started.
    EmitStarted,
    /// Tell the plugins that the deploy finished.
    EmitFinished,
    /// Check out the code and copy it into the site's volume.
    Deploy,
    CreateGreen(String),
    Connect(String),
    Start(String),
    WaitReady(String),
    Stop(String),
    Remove(String),
    CreateFinal(String),
    /// Store the site with this container.
    Save(String),
    Finish,
    Fail(String),
}

pub struct RunView {
    pub phase: BgPhase,
    pub site_id: Seq<char>,
    pub old_id: Option<Seq<char>>,
    pub green_name: Seq<char>,
    pub green_id: Option<Seq<char>>,
    pub final_id: Option<Seq<char>>,
    pub attach_proxy: bool,
    pub has_network: bool,
    pub has_volume: bool,
    pub green_ready: bool,
    pub error: Seq<char>,
}

pub enum EventView {
    Done,
    Created(Seq<char>),
    Failed(Seq<char>),
}

pub enum ActionView {
    EmitStarted,
    EmitFinished,
    Deploy,
    CreateGreen(Seq<char>),
    Connect(Seq<char>),
    Start(Seq<char>),
    WaitReady(Seq<char>),
    Stop(Seq<char>),
    Remove(Seq<char>),
    CreateFinal(Seq<char>),
    Save(Seq<char>),
    Finish,
    Fail(Seq<char>),
}

impl View for BlueGreenRun {
    type V = RunView;

    open spec fn view(&self) -> RunView {
        RunView {
            phase: self.phase,
            site_id: self.site_id@,
            old_id: opt_view(self.old_id),
            green_name: self.green_name@,
            green_id: opt_view(self.green_id),
            final_id: opt_view(self.final_id),
            attach_proxy: self.attach_proxy,
            has_network: self.has_network,
            has_volume: self.has_volume,
            green_ready: self.green_ready,
            error: self.error@,
        }
    }
}

impl View for BgEvent {
    type V = EventView;

    open spec fn view(&self) -> EventView {
        match self {
            BgEvent::Done => EventView::Done,
            BgEvent::Created(s) => EventView::Created(s@),
            BgEvent::Failed(s) => EventView::Failed(s@),
        }
    }
}

impl View for BgAction {
    type V = ActionView;

    open spec fn view(&self) -> ActionView {
        match self {
            BgAction::EmitStarted => ActionView::EmitStarted,
            BgAction::EmitFinished => ActionView::EmitFinished,
            BgAction::Deploy => ActionView::Deploy,
            BgAction::CreateGreen(s) => ActionView::CreateGreen(s@),
            BgAction::Connect(s) => ActionView::Connect(s@),
            BgAction::Start(s) => ActionView::Start(s@),
            BgAction::WaitReady(s) => ActionView::WaitReady(s@),
            BgAction::Stop(s) => ActionView::Stop(s@),
            BgAction::Remove(s) => ActionView::Remove(s@),
            BgAction::CreateFinal(s) => ActionView::CreateFinal(s@),
            BgAction::Save(s) => ActionView::Save(s@),
            BgAction::Finish => ActionView::Finish,
            BgAction::Fail(s) => ActionView::Fail(s@),
        }
    }
}

pub open spec fn rollback_message(err: Seq<char>) -> Seq<char> {
    "blue/green deploy rolled back \u{2014} new container failed health check: "@ + err
}

pub open spec fn final_name(site_id: Seq<char>) -> Seq<char> {
    "site-"@ + site_id
}

pub open spec fn green_name_of(site_id: Seq<char>, suffix: Seq<char>) -> Seq<char> {
    "site-"@ + site_id + "-"@ + suffix
}

pub open spec fn is_terminal(p: BgPhase) -> bool {
    p == BgPhase::Done || p == BgPhase::Failed
}

/// Which phases come after a passed health check.
pub open spec fn after_check(p: BgPhase) -> bool {
    match p {
        BgPhase::StoppingOld | BgPhase::RemovingOld | BgPhase::StoppingGreen
        | BgPhase::RemovingGreen | BgPhase::CreatingFinal | BgPhase::ConnectingFinal
        | BgPhase::StartingFinal | BgPhase::Saving | BgPhase::AnnouncingDone | BgPhase::Done => true,
        _ => false,
    }
}

/// The invariant of a run: the check passed in every phase that follows it
/// and in none before it; the green container exists from its creation on,
/// and each container a phase acts on is known.
pub open spec fn wf(r: RunView) -> bool {
    &&& (after_check(r.phase) ==> r.green_ready)
    &&& (r.green_ready ==> after_check(r.phase) || r.phase == BgPhase::Failed)
    &&& (match r.phase {
        BgPhase::Announcing | BgPhase::Deploying | BgPhase::CreatingGreen | BgPhase::Failed => true,
        _ => r.green_id is Some,
    })
    &&& ((r.phase == BgPhase::StoppingOld || r.phase == BgPhase::RemovingOld) ==> r.old_id is Some)
    &&& ((r.phase == BgPhase::ConnectingFinal || r.phase == BgPhase::StartingFinal || r.phase
        == BgPhase::Saving) ==> r.final_id is Some)
}

pub open spec fn start_green(r: RunView, id: Seq<char>) -> (RunView, ActionView) {
    let r2 = RunView { green_id: Some(id), ..r };
    if r.attach_proxy {
        (RunView { phase: BgPhase::ConnectingGreen, ..r2 }, ActionView::Connect(id))
    } else {
        (RunView { phase: BgPhase::StartingGreen, ..r2 }, ActionView::Start(id))
    }
}

/// The run fails with `msg`, and keeps it as its reason.
pub open spec fn fail(r: RunView, msg: Seq<char>) -> (RunView, ActionView) {
    (RunView { phase: BgPhase::Failed, error: msg, ..r }, ActionView::Fail(msg))
}

/// One step of a run.
pub open spec fn next(r: RunView, e: EventView) -> (RunView, ActionView) {
    let green = r.green_id.unwrap();
    match r.phase {
        BgPhase::Announcing => (RunView { phase: BgPhase::Deploying, ..r }, ActionView::Deploy),
        BgPhase::Deploying => match e {
            EventView::Failed(m) => fail(r, m),
            _ => if !r.has_network {
                fail(r, "site has no network"@)
            } else if !r.has_volume {
                fail(r, "site has no volume"@)
            } else {
                (RunView { phase: BgPhase::CreatingGreen, ..r }, ActionView::CreateGreen(r.green_name))
            },
        },
        BgPhase::CreatingGreen => match e {
            EventView::Created(id) => start_green(r, id),
            EventView::Failed(m) => fail(r, m),
            EventView::Done => fail(r, "container was not created"@),
        },
        BgPhase::ConnectingGreen => match e {
            EventView::Failed(m) => fail(r, m),
            _ => (RunView { phase: BgPhase::StartingGreen, ..r }, ActionView::Start(green)),
        },
        BgPhase::StartingGreen => match e {
            EventView::Failed(m) => fail(r, m),
            _ => (RunView { phase: BgPhase::CheckingGreen, ..r }, ActionView::WaitReady(green)),
        },
        BgPhase::CheckingGreen => match e {
            EventView::Failed(m) => (
                RunView { phase: BgPhase::RollbackStopGreen, error: m, ..r },
                ActionView::Stop(green),
            ),
            _ => match r.old_id {
                Some(old) => (
                    RunView { phase: BgPhase::StoppingOld, green_ready: true, ..r },
                    ActionView::Stop(old),
                ),
                None => (
                    RunView { phase: BgPhase::StoppingGreen, green_ready: true, ..r },
                    ActionView::Stop(green),
                ),
            },
        },
        BgPhase::RollbackStopGreen => (
            RunView { phase: BgPhase::RollbackRemoveGreen, ..r },
            ActionView::Remove(green),
        ),
        BgPhase::RollbackRemoveGreen => fail(r, rollback_message(r.error)),
        BgPhase::StoppingOld => (
            RunView { phase: BgPhase::RemovingOld, ..r },
            ActionView::Remove(r.old_id.unwrap()),
        ),
        BgPhase::RemovingOld => (
            RunView { phase: BgPhase::StoppingGreen, ..r },
            ActionView::Stop(green),
        ),
        BgPhase::StoppingGreen => (
            RunView { phase: BgPhase::RemovingGreen, ..r },
            ActionView::Remove(green),
        ),
        BgPhase::RemovingGreen => (
            RunView { phase: BgPhase::CreatingFinal, ..r },
            ActionView::CreateFinal(final_name(r.site_id)),
        ),
        BgPhase::CreatingFinal => match e {
            EventView::Created(id) => if r.attach_proxy {
                (
                    RunView { phase: BgPhase::ConnectingFinal, final_id: Some(id), ..r },
                    ActionView::Connect(id),
                )
            } else {
                (
                    RunView { phase: BgPhase::StartingFinal, final_id: Some(id), ..r },
                    ActionView::Start(id),
                )
            },
            EventView::Failed(m) => fail(r, m),
            EventView::Done => fail(r, "container was not created"@),
        },
        BgPhase::ConnectingFinal => match e {
            EventView::Failed(m) => fail(r, m),
            _ => (
                RunView { phase: BgPhase::StartingFinal, ..r },
                ActionView::Start(r.final_id.unwrap()),
            ),
        },
        BgPhase::StartingFinal => match e {
            EventView::Failed(m) => fail(r, m),
            _ => (RunView { phase: BgPhase::Saving, ..r }, ActionView::Save(r.final_id.unwrap())),
        },
        BgPhase::Saving => match e {
            EventView::Failed(m) => fail(r, m),
            _ => (RunView { phase: BgPhase::AnnouncingDone, ..r }, ActionView::EmitFinished),
        },
        BgPhase::AnnouncingDone => (RunView { phase: BgPhase::Done, ..r }, ActionView::Finish),
        BgPhase::Done => (r, ActionView::Finish),
        BgPhase::Failed => (r, ActionView::Fail(r.error)),
    }
}

/// A new run and its first call: announcing the deploy to the plugins
/// (deploying the code comes next). `green_suffix` makes
/// the green container's name unique.
pub fn begin(
    site_id: &str,
    old_id: Option<String>,
    green_suffix: &str,
    attach_proxy: bool,
    has_network: bool,
    has_volume: bool,
) -> (r: (BlueGreenRun, BgAction))
    ensures
        r.0@ == (RunView {
            phase: BgPhase::Announcing,
            site_id: site_id@,
            old_id: opt_view(old_id),
            green_name: green_name_of(site_id@, green_suffix@),
            green_id: None,
            final_id: None,
            attach_proxy,
            has_network,
            has_volume,
            green_ready: false,
            error: Seq::empty(),
        }),
        r.1@ == ActionView::EmitStarted,
        wf(r.0@),
{
    let name = concat3("site-", site_id, "-");
    let name = concat2(name.as_str(), green_suffix);
    let run = BlueGreenRun {
        phase: BgPhase::Announcing,
        site_id: owned(site_id),
        old_id,
        green_name: name,
        green_id: None,
        final_id: None,
        attach_proxy,
        has_network,
        has_volume,
        green_ready: false,
        error: String::new(),
    };
    (run, BgAction::EmitStarted)
}

/// A new run whose green container gets a fresh random name; its
/// containers join the proxy's network when the proxy is enabled and the
/// hosting settings attach site containers to it.
pub fn begin_run(
    site_id: &str,
    old_id: Option<String>,
    attach_proxy_network: bool,
    proxy_enabled: bool,
    has_network: bool,
    has_volume: bool,
) -> (r: (BlueGreenRun, BgAction))
    ensures
        exists|suffix: Seq<char>|
            crate::ids::is_simple_uuid(suffix) && r.0@ == (RunView {
                phase: BgPhase::Announcing,
                site_id: site_id@,
                old_id: opt_view(old_id),
                green_name: #[trigger] green_name_of(site_id@, suffix),
                green_id: None,
                final_id: None,
                attach_proxy: attach_proxy_network && proxy_enabled,
                has_network,
                has_volume,
                green_ready: false,
                error: Seq::empty(),
            }),
        r.1@ == ActionView::EmitStarted,
        wf(r.0@),
{
    let suffix = crate::ids::new_uuid_simple();
    begin(
        site_id,
        old_id,
        suffix.as_str(),
        attach_proxy_network && proxy_enabled,
        has_network,
        has_volume,
    )
}

fn copy_opt(o: &Option<String>) -> (r: Option<String>)
    ensures
        opt_view(r) == opt_view(*o),
{
    match o {
        Some(s) => Some(owned(s.as_str())),
        None => None,
    }
}

fn copy_run(r: &BlueGreenRun, phase: BgPhase) -> (c: BlueGreenRun)
    ensures
        c@ == (RunView { phase, ..r@ }),
{
    BlueGreenRun {
        phase,
        site_id: owned(r.site_id.as_str()),
        old_id: copy_opt(&r.old_id),
        green_name: owned(r.green_name.as_str()),
        green_id: copy_opt(&r.green_id),
        final_id: copy_opt(&r.final_id),
        attach_proxy: r.attach_proxy,
        has_network: r.has_network,
        has_volume: r.has_volume,
        green_ready: r.green_ready,
        error: owned(r.error.as_str()),
    }
}

fn unwrap_id(o: &Option<String>) -> (s: String)
    requires
        o is Some,
    ensures
        s@ == o.unwrap()@,
{
    match o {
        Some(s) => owned(s.as_str()),
        None => String::new(),
    }
}

/// The run failed with `msg`: its state keeps the reason, and the call
/// reports it.
fn failed(r: &BlueGreenRun, msg: String) -> (out: (BlueGreenRun, BgAction))
    ensures
        (out.0@, out.1@) == fail(r@, msg@),
{
    let mut c = copy_run(r, BgPhase::Failed);
    c.error = owned(msg.as_str());
    (c, BgAction::Fail(msg))
}

/// The next state and call, from the state and what the last call gave.
pub fn step(r: &BlueGreenRun, e: BgEvent) -> (out: (BlueGreenRun, BgAction))
    requires
        wf(r@),
    ensures
        (out.0@, out.1@) == next(r@, e@),
        wf(out.0@),
{
    match r.phase {
        BgPhase::Announcing => (copy_run(r, BgPhase::Deploying), BgAction::Deploy),
        BgPhase::Deploying => match e {
            BgEvent::Failed(m) => failed(r, m),
            _ => if !r.has_network {
                failed(r, owned("site has no network"))
            } else if !r.has_volume {
                failed(r, owned("site has no volume"))
            } else {
                (
                    copy_run(r, BgPhase::CreatingGreen),
                    BgAction::CreateGreen(owned(r.green_name.as_str())),
                )
            },
        },
        BgPhase::CreatingGreen => match e {
            BgEvent::Created(id) => {
                let phase = if r.attach_proxy {
                    BgPhase::ConnectingGreen
                } else {
                    BgPhase::StartingGreen
                };
                let mut c = copy_run(r, phase);
                c.green_id = Some(owned(id.as_str()));
                if r.attach_proxy {
                    (c, BgAction::Connect(id))
                } else {
                    (c, BgAction::Start(id))
                }
            },
            BgEvent::Failed(m) => failed(r, m),
            BgEvent::Done => failed(r, owned("container was not created")),
        },
        BgPhase::ConnectingGreen => match e {
            BgEvent::Failed(m) => failed(r, m),
            _ => (copy_run(r, BgPhase::StartingGreen), BgAction::Start(unwrap_id(&r.green_id))),
        },
        BgPhase::StartingGreen => match e {
            BgEvent::Failed(m) => failed(r, m),
            _ => (
                copy_run(r, BgPhase::CheckingGreen),
                BgAction::WaitReady(unwrap_id(&r.green_id)),
            ),
        },
        BgPhase::CheckingGreen => match e {
            BgEvent::Failed(m) => {
                let mut c = copy_run(r, BgPhase::RollbackStopGreen);
                c.error = m;
                (c, BgAction::Stop(unwrap_id(&r.green_id)))
            },
            _ => match &r.old_id {
                Some(old) => {
                    let mut c = copy_run(r, BgPhase::StoppingOld);
                    c.green_ready = true;
                    (c, BgAction::Stop(owned(old.as_str())))
                },
                None => {
                    let mut c = copy_run(r, BgPhase::StoppingGreen);
                    c.green_ready = true;
                    (c, BgAction::Stop(unwrap_id(&r.green_id)))
                },
            },
        },
        BgPhase::RollbackStopGreen => (
            copy_run(r, BgPhase::RollbackRemoveGreen),
            BgAction::Remove(unwrap_id(&r.green_id)),
        ),
        BgPhase::RollbackRemoveGreen => {
            let msg = concat2(
                "blue/green deploy rolled back \u{2014} new container failed health check: ",
                r.error.as_str(),
            );
            failed(r, msg)
        },
        BgPhase::StoppingOld => (
            copy_run(r, BgPhase::RemovingOld),
            BgAction::Remove(unwrap_id(&r.old_id)),
        ),
        BgPhase::RemovingOld => (
            copy_run(r, BgPhase::StoppingGreen),
            BgAction::Stop(unwrap_id(&r.green_id)),
        ),
        BgPhase::StoppingGreen => (
            copy_run(r, BgPhase::RemovingGreen),
            BgAction::Remove(unwrap_id(&r.green_id)),
        ),
        BgPhase::RemovingGreen => (
            copy_run(r, BgPhase::CreatingFinal),
            BgAction::CreateFinal(concat2("site-", r.site_id.as_str())),
        ),
        BgPhase::CreatingFinal => match e {
            BgEvent::Created(id) => {
                let phase = if r.attach_proxy {
                    BgPhase::ConnectingFinal
                } else {
                    BgPhase::StartingFinal
                };
                let mut c = copy_run(r, phase);
                c.final_id = Some(owned(id.as_str()));
                if r.attach_proxy {
                    (c, BgAction::Connect(id))
                } else {
                    (c, BgAction::Start(id))
                }
            },
            BgEvent::Failed(m) => failed(r, m),
            BgEvent::Done => failed(r, owned("container was not created")),
        },
        BgPhase::ConnectingFinal => match e {
            BgEvent::Failed(m) => failed(r, m),
            _ => (copy_run(r, BgPhase::StartingFinal), BgAction::Start(unwrap_id(&r.final_id))),
        },
        BgPhase::StartingFinal => match e {
            BgEvent::Failed(m) => failed(r, m),
            _ => (copy_run(r, BgPhase::Saving), BgAction::Save(unwrap_id(&r.final_id))),
        },
        BgPhase::Saving => match e {
            BgEvent::Failed(m) => failed(r, m),
            _ => (copy_run(r, BgPhase::AnnouncingDone), BgAction::EmitFinished),
        },
        BgPhase::AnnouncingDone => (copy_run(r, BgPhase::Done), BgAction::Finish),
        BgPhase::Done => (copy_run(r, BgPhase::Done), BgAction::Finish),
        BgPhase::Failed => failed(r, owned(r.error.as_str())),
    }
}

/// Key and value pairs as a map; a later pair wins over an earlier one with
/// the same key (as inserting them one by one into a map does).
pub open spec fn pairs_map(v: Seq<(Seq<char>, Seq<char>)>) -> Map<Seq<char>, Seq<char>>
    decreases v.len(),
{
    if v.len() == 0 {
        Map::empty()
    } else {
        pairs_map(v.drop_last()).insert(v.last().0, v.last().1)
    }
}

/// The pairs whose key is not `k`, in order.
pub open spec fn without_key(v: Seq<(Seq<char>, Seq<char>)>, k: Seq<char>) -> Seq<(Seq<char>, Seq<char>)>
    decreases v.len(),
{
    if v.len() == 0 {
        v
    } else if v.last().0 == k {
        without_key(v.drop_last(), k)
    } else {
        without_key(v.drop_last(), k).push(v.last())
    }
}

proof fn lemma_without_key_map(v: Seq<(Seq<char>, Seq<char>)>, k: Seq<char>)
    ensures
        pairs_map(without_key(v, k)) == pairs_map(v).remove(k),
    decreases v.len(),
{
    if v.len() == 0 {
        assert(pairs_map(v).remove(k) =~= Map::empty());
    } else {
        lemma_without_key_map(v.drop_last(), k);
        let x = v.last();
        if x.0 == k {
            assert(pairs_map(v.drop_last()).remove(k) =~= pairs_map(v.drop_last()).insert(k, x.1).remove(k));
        } else {
            let w = without_key(v.drop_last(), k).push(x);
            assert(w.drop_last() =~= without_key(v.drop_last(), k));
            assert(pairs_map(v.drop_last()).remove(k).insert(x.0, x.1) =~= pairs_map(v.drop_last()).insert(
                x.0,
                x.1,
            ).remove(k));
        }
    }
}

/// The runtime environment with the site's document root, when it has a
/// non-empty one, under `FEATHERFLY_DOCUMENT_ROOT`: an earlier value of that
/// variable is replaced, so the variable is set once.
pub fn with_document_root(env: Vec<(String, String)>, document_root: &Option<String>) -> (r: Vec<
    (String, String),
>)
    ensures
        match document_root {
            Some(root) => if root@.len() > 0 {
                &&& pair_views(r@) == without_key(pair_views(env@), "FEATHERFLY_DOCUMENT_ROOT"@).push(
                    ("FEATHERFLY_DOCUMENT_ROOT"@, root@),
                )
                &&& pairs_map(pair_views(r@)) == pairs_map(pair_views(env@)).insert(
                    "FEATHERFLY_DOCUMENT_ROOT"@,
                    root@,
                )
            } else {
                pair_views(r@) == pair_views(env@)
            },
            None => pair_views(r@) == pair_views(env@),
        },
{
    match document_root {
        Some(root) => {
            if crate::text::chars_of(root.as_str()).len() > 0 {
                let key = crate::text::chars_of("FEATHERFLY_DOCUMENT_ROOT");
                let ghost k = "FEATHERFLY_DOCUMENT_ROOT"@;
                let ghost ev = pair_views(env@);
                let mut out: Vec<(String, String)> = Vec::new();
                let mut i: usize = 0;
                while i < env.len()
                    invariant
                        i <= env@.len(),
                        key@ == k,
                        ev == pair_views(env@),
                        pair_views(out@) == without_key(ev.take(i as int), k),
                    decreases env.len() - i,
                {
                    assert(ev.take(i + 1).drop_last() =~= ev.take(i as int));
                    let (n, v) = &env[i];
                    if !crate::text::eq_chars(crate::text::chars_of(n.as_str()).as_slice(), key.as_slice()) {
                        let ghost before = pair_views(out@);
                        out.push((owned(n.as_str()), owned(v.as_str())));
                        assert(pair_views(out@) =~= before.push((n@, v@)));
                    }
                    i = i + 1;
                }
                assert(ev.take(env@.len() as int) =~= ev);
                let ghost before = pair_views(out@);
                out.push((owned("FEATHERFLY_DOCUMENT_ROOT"), owned(root.as_str())));
                assert(pair_views(out@) =~= before.push((k, root@)));
                proof {
                    lemma_without_key_map(ev, k);
                    assert(pair_views(out@).drop_last() =~= before);
                    assert(pairs_map(ev).remove(k).insert(k, root@) =~= pairs_map(ev).insert(k, root@));
                }
                out
            } else {
                env
            }
        },
        None => env,
    }
}

pub open spec fn pair_views(v: Seq<(String, String)>) -> Seq<(Seq<char>, Seq<char>)> {
    v.map_values(|p: (String, String)| (p.0@, p.1@))
}

pub open spec fn site_label_views(site_id: Seq<char>, domain: Seq<char>) -> Seq<(Seq<char>, Seq<char>)> {
    seq![("featherfly.site.id"@, site_id), ("featherfly.site.domain"@, domain)]
}

/// The labels every container of a site carries: its id and its domain.
pub fn site_labels(site_id: &str, domain: &str) -> (r: Vec<(String, String)>)
    ensures
        pair_views(r@) == site_label_views(site_id@, domain@),
{
    let mut v: Vec<(String, String)> = Vec::new();
    v.push((owned("featherfly.site.id"), owned(site_id)));
    v.push((owned("featherfly.site.domain"), owned(domain)));
    assert(pair_views(v@) =~= site_label_views(site_id@, domain@));
    v
}

/// The labels of the final container: the site's labels, then the proxy's
/// routing labels when the proxy is enabled and the site is active (given
/// as `routing`).
pub fn final_labels(site_id: &str, domain: &str, routing: Option<Vec<(String, String)>>) -> (r: Vec<
    (String, String),
>)
    ensures
        pair_views(r@) == site_label_views(site_id@, domain@) + match routing {
            Some(extra) => pair_views(extra@),
            None => Seq::empty(),
        },
{
    let mut v = site_labels(site_id, domain);
    let ghost base = pair_views(v@);
    match routing {
        Some(extra) => {
            let mut i: usize = 0;
            while i < extra.len()
                invariant
                    i <= extra@.len(),
                    pair_views(v@) == base + pair_views(extra@.take(i as int)),
                decreases extra.len() - i,
            {
                let (k, val) = &extra[i];
                let ghost before = v@;
                v.push((owned(k.as_str()), owned(val.as_str())));
                assert(pair_views(v@) =~= pair_views(before).push((k@, val@)));
                assert(pair_views(extra@.take(i + 1)) =~= pair_views(extra@.take(i as int)).push(
                    (k@, val@),
                ));
                i = i + 1;
            }
            assert(extra@.take(extra@.len() as int) =~= extra@);
        },
        None => {
            assert(base + Seq::<(Seq<char>, Seq<char>)>::empty() =~= base);
        },
    }
    v
}

/// Every step keeps the invariant, and the old container is stopped or
/// removed only once the green container passed its health check: a run
/// turns ready only on the check's success.
pub proof fn lemma_old_kept_until_green_ready(r: RunView, e: EventView)
    requires
        wf(r),
    ensures
        wf(next(r, e).0),
        (next(r, e).0.phase == BgPhase::StoppingOld || next(r, e).0.phase == BgPhase::RemovingOld)
            ==> next(r, e).0.green_ready,
        next(r, e).0.green_ready && !r.green_ready ==> r.phase == BgPhase::CheckingGreen && !(
        e is Failed),
{
}

/// A run is announced before its code is deployed, and it finishes only
/// right after announcing that it finished, which follows storing the site.
pub proof fn lemma_deploy_is_announced(r: RunView, e: EventView)
    requires
        wf(r),
    ensures
        next(r, e).1 == ActionView::Deploy ==> r.phase == BgPhase::Announcing,
        (next(r, e).1 == ActionView::Finish && r.phase != BgPhase::Done) ==> r.phase
            == BgPhase::AnnouncingDone,
        next(r, e).1 == ActionView::EmitFinished ==> r.phase == BgPhase::Saving && !(e is Failed),
{
}

/// A failed health check rolls back: the green container is stopped, then
/// removed, then the deploy fails with the check's error; the old container
/// is left as it was, whatever the stop and removal gave.
pub proof fn lemma_failed_check_rolls_back(r: RunView, err: Seq<char>, e1: EventView, e2: EventView)
    requires
        wf(r),
        r.phase == BgPhase::CheckingGreen,
    ensures
        next(r, EventView::Failed(err)).1 == ActionView::Stop(r.green_id.unwrap()),
        next(next(r, EventView::Failed(err)).0, e1).1 == ActionView::Remove(r.green_id.unwrap()),
        next(next(next(r, EventView::Failed(err)).0, e1).0, e2).1 == ActionView::Fail(
            rollback_message(err),
        ),
        next(next(next(r, EventView::Failed(err)).0, e1).0, e2).0.phase == BgPhase::Failed,
        next(next(next(r, EventView::Failed(err)).0, e1).0, e2).0.old_id == r.old_id,
        next(next(next(r, EventView::Failed(err)).0, e1).0, e2).0.error == rollback_message(err),
{
}

/// A run that fails keeps the reason it reports, and a failed run answers
/// every later step with that same reason, unchanged.
pub proof fn lemma_failure_keeps_reason(r: RunView, e: EventView)
    requires
        wf(r),
    ensures
        next(r, e).0.phase == BgPhase::Failed ==> next(r, e).1 == ActionView::Fail(next(r, e).0.error),
        r.phase == BgPhase::Failed ==> next(r, e) == (r, ActionView::Fail(r.error)),
{
}

/// When the run's containers join the proxy's network, each container is
/// connected to it right after it is created, the green one and the final
/// one alike, and a container is started only once its connection
/// succeeded; when they do not join it, a created container is started
/// right away and nothing is connected.
pub proof fn lemma_proxy_connect_before_start(r: RunView, e: EventView)
    requires
        wf(r),
    ensures
        r.attach_proxy && (r.phase == BgPhase::CreatingGreen || r.phase == BgPhase::CreatingFinal)
            && e is Created ==> next(r, e).1 == ActionView::Connect(e->Created_0),
        r.attach_proxy && next(r, e).1 is Start ==> (r.phase == BgPhase::ConnectingGreen
            || r.phase == BgPhase::ConnectingFinal) && !(e is Failed),
        r.attach_proxy && r.phase == BgPhase::ConnectingFinal && !(e is Failed) ==> next(r, e).1
            == ActionView::Start(r.final_id.unwrap()),
        !r.attach_proxy && (r.phase == BgPhase::CreatingGreen || r.phase == BgPhase::CreatingFinal)
            && e is Created ==> next(r, e).1 == ActionView::Start(e->Created_0),
        !r.attach_proxy ==> !(next(r, e).1 is Connect),
{
}

} // verus!

//! Properties of whole runs of the launch procedure.
use vstd::prelude::*;
use crate::messages::{download_failure_text, release_url};
use crate::platform::{Os, Arch};
use crate::resolve::{ActionView, resolve_spec};
use crate::session::{
    StageView, EventView, CommandView, fits, step_spec, start_spec, is_notification,
};

verus! {

/// The commands issued while the events are fed in one by one from stage
/// `s`, up to the first event that does not fit.
pub open spec fn run(s: StageView, events: Seq<EventView>) -> Seq<CommandView>
    decreases events.len(),
{
    if events.len() == 0 || !fits(s, events[0]) {
        Seq::empty()
    } else {
        let (next, c) = step_spec(s, events[0]);
        seq![c] + run(next, events.drop_first())
    }
}

/// The stage reached by the same feeding.
pub open spec fn final_stage(s: StageView, events: Seq<EventView>) -> StageView
    decreases events.len(),
{
    if events.len() == 0 || !fits(s, events[0]) {
        s
    } else {
        final_stage(step_spec(s, events[0]).0, events.drop_first())
    }
}

/// How many of the commands are notifications to the host.
pub open spec fn notification_count(cs: Seq<CommandView>) -> nat
    decreases cs.len(),
{
    if cs.len() == 0 {
        0
    } else {
        (if is_notification(cs[0]) {
            1nat
        } else {
            0nat
        }) + notification_count(cs.drop_first())
    }
}

/// The commands of a whole request: the first one and those of the run.
pub open spec fn request_commands(
    server_path: Option<Seq<char>>,
    volt_os: Option<Seq<char>>,
    os: Os,
    arch: Arch,
    events: Seq<EventView>,
) -> Seq<CommandView> {
    let (s0, c0) = start_spec(server_path, volt_os, os, arch);
    seq![c0] + run(s0, events)
}

proof fn lemma_run_unfold(s: StageView, events: Seq<EventView>)
    requires
        events.len() > 0,
        fits(s, events[0]),
    ensures
        run(s, events)[0] == step_spec(s, events[0]).1,
        run(s, events).drop_first() == run(step_spec(s, events[0]).0, events.drop_first()),
        notification_count(run(s, events)) == (if is_notification(step_spec(s, events[0]).1) {
            1nat
        } else {
            0nat
        }) + notification_count(run(step_spec(s, events[0]).0, events.drop_first())),
{
    let (next, c) = step_spec(s, events[0]);
    assert((seq![c] + run(next, events.drop_first())).drop_first() =~= run(
        next,
        events.drop_first(),
    ));
}

/// A step that fits its stage ends the run exactly when it notifies the host.
pub proof fn lemma_step_notifies_iff_done(s: StageView, e: EventView)
    requires
        fits(s, e),
    ensures
        is_notification(step_spec(s, e).1) <==> step_spec(s, e).0 is Done,
{
}

/// From any unfinished stage, a run notifies the host at most once, and
/// exactly once when it reaches the end.
pub proof fn lemma_run_notifies_once(s: StageView, events: Seq<EventView>)
    requires
        !(s is Done),
    ensures
        notification_count(run(s, events)) <= 1,
        notification_count(run(s, events)) == 1 <==> final_stage(s, events) is Done,
    decreases events.len(),
{
    if events.len() == 0 || !fits(s, events[0]) {
        assert(run(s, events) =~= Seq::<CommandView>::empty());
        assert(final_stage(s, events) == s);
        assert(notification_count(run(s, events)) == 0);
    } else {
        lemma_run_unfold(s, events);
        lemma_step_notifies_iff_done(s, events[0]);
        let next = step_spec(s, events[0]).0;
        let rest = events.drop_first();
        assert(final_stage(s, events) == final_stage(next, rest));
        if next is Done {
            if rest.len() > 0 {
                assert(!fits(next, rest[0]));
            }
            assert(final_stage(next, rest) == next);
            assert(run(next, rest) =~= Seq::<CommandView>::empty());
            assert(notification_count(run(next, rest)) == 0);
        } else {
            lemma_run_notifies_once(next, rest);
        }
    }
}

/// Every request notifies the host at most once: exactly once when its run
/// reaches the end, and never when the platform has no bundled binary.
pub proof fn lemma_one_notification_per_request(
    server_path: Option<Seq<char>>,
    volt_os: Option<Seq<char>>,
    os: Os,
    arch: Arch,
    events: Seq<EventView>,
)
    ensures
        notification_count(request_commands(server_path, volt_os, os, arch, events)) <= 1,
        resolve_spec(server_path, os, arch) is NoOp ==> notification_count(
            request_commands(server_path, volt_os, os, arch, events),
        ) == 0,
        !(resolve_spec(server_path, os, arch) is NoOp) ==> (notification_count(
            request_commands(server_path, volt_os, os, arch, events),
        ) == 1 <==> final_stage(start_spec(server_path, volt_os, os, arch).0, events) is Done),
{
    let (s0, c0) = start_spec(server_path, volt_os, os, arch);
    let cs = request_commands(server_path, volt_os, os, arch, events);
    assert(cs[0] == c0);
    assert(cs.drop_first() =~= run(s0, events));
    assert(!is_notification(c0));
    if s0 is Done {
        if events.len() > 0 {
            assert(!fits(s0, events[0]));
        }
        assert(run(s0, events) =~= Seq::<CommandView>::empty());
    } else {
        lemma_run_notifies_once(s0, events);
    }
}

/// When the bundled binary is already present, the run issues no download
/// and no file write, whatever follows.
pub proof fn lemma_present_file_skips_download(file_name: Seq<char>, events: Seq<EventView>)
    ensures
        ({
            let cs = run(
                StageView::CheckingFile { file_name },
                seq![EventView::FileChecked { exists: true }] + events,
            );
            forall|i: int| 0 <= i < cs.len() ==> !(#[trigger] cs[i] is Fetch) && !(cs[i] is WriteFile)
        }),
{
    let s = StageView::CheckingFile { file_name };
    let evs = seq![EventView::FileChecked { exists: true }] + events;
    assert(evs[0] == EventView::FileChecked { exists: true });
    assert(evs.drop_first() =~= events);
    lemma_run_unfold(s, evs);
    let mid = StageView::LocatingInstallDir { file_name };
    assert(step_spec(s, evs[0]).0 == mid);
    let cs = run(s, evs);
    if events.len() > 0 && fits(mid, events[0]) {
        lemma_run_unfold(mid, events);
        let next = step_spec(mid, events[0]).0;
        assert(next is Done);
        if events.drop_first().len() > 0 {
            assert(!fits(next, events.drop_first()[0]));
        }
        assert(run(next, events.drop_first()) =~= Seq::<CommandView>::empty());
        assert(run(mid, events).len() == 1);
    } else {
        assert(run(mid, events) =~= Seq::<CommandView>::empty());
    }
    assert forall|i: int| 0 <= i < cs.len() implies !(#[trigger] cs[i] is Fetch) && !(
    cs[i] is WriteFile) by {
        if i > 0 {
            assert(cs[i] == cs.drop_first()[i - 1]);
        }
    }
}

/// When the bundled binary is missing and its download fails, the run
/// fetches once, shows the download failure, and writes no file.
pub proof fn lemma_failed_download_writes_nothing(file_name: Seq<char>, events: Seq<EventView>)
    ensures
        run(
            StageView::CheckingFile { file_name },
            seq![EventView::FileChecked { exists: false }, EventView::Fetched { body: None }]
                + events,
        ) == seq![
            CommandView::Fetch { url: release_url(file_name) },
            CommandView::ShowError { message: download_failure_text() },
        ],
{
    let s = StageView::CheckingFile { file_name };
    let evs = seq![EventView::FileChecked { exists: false }, EventView::Fetched { body: None }]
        + events;
    let fetching = StageView::Fetching { file_name };
    assert(evs[0] == EventView::FileChecked { exists: false });
    let rest = evs.drop_first();
    assert(rest[0] == EventView::Fetched { body: None });
    assert(rest.drop_first() =~= events);
    lemma_run_unfold(s, evs);
    lemma_run_unfold(fetching, rest);
    if events.len() > 0 {
        assert(!fits(StageView::Done, events[0]));
    }
    assert(run(StageView::Done, events) =~= Seq::<CommandView>::empty());
    let cs = run(s, evs);
    assert(cs.len() == 2);
    assert(cs[1] == cs.drop_first()[0]);
    assert(cs =~= seq![
        CommandView::Fetch { url: release_url(file_name) },
        CommandView::ShowError { message: download_failure_text() },
    ]);
}

} // verus!

//! The decisions of the directory walk: which walk to use, which entries to
//! visit, evaluate and descend into. Reading directories and metadata is left
//! to the caller.
use vstd::prelude::*;

use crate::eval::{EntryType, Meta};
use crate::expr::{Config, ConfigView, SymlinkMode, Timestamp, has_prune, spec_has_prune};
use crate::text::{concat2, concat3, lossy_text, lossy_utf8, push_all};

verus! {

/// The start of the UTC day of `now`.
pub open spec fn spec_compute_daystart(now: Timestamp) -> Timestamp {
    Timestamp { secs: (now.secs - now.secs % 86400) as i64, nanos: 0 }
}

/// Midnight (UTC) of the day of `now`, which must not be before the epoch
/// (`duration_since(UNIX_EPOCH).unwrap()` panics otherwise).
pub fn compute_daystart(now: Timestamp) -> (r: Timestamp)
    requires
        now.secs >= 0,
    ensures
        r == spec_compute_daystart(now),
{
    let secs = now.secs;
    let day_secs = secs % 86400;
    Timestamp { secs: secs - day_secs, nanos: 0 }
}

/// The sequential walk (std::fs, in directory order) is needed for `-depth`
/// (and `-delete`, which sets it) and for `-prune`; otherwise the parallel
/// walk is used.
pub open spec fn spec_use_sequential(c: ConfigView) -> bool {
    c.depth_first || spec_has_prune(c.expr)
}

pub fn use_sequential(config: &Config) -> (r: bool)
    ensures
        r == spec_use_sequential(config@),
{
    config.depth_first || has_prune(&config.expr)
}

/// Whether the parallel walk follows symbolic links (`-L`).
pub fn follow_links(config: &Config) -> (r: bool)
    ensures
        r == (config.symlink_mode == SymlinkMode::Always),
{
    config.symlink_mode == SymlinkMode::Always
}

/// The minimum depth the parallel walk is given (none for 0).
pub fn walk_min_depth(config: &Config) -> (r: Option<usize>)
    ensures
        r == (if config.min_depth > 0 {
            Some(config.min_depth)
        } else {
            None::<usize>
        }),
{
    if config.min_depth > 0 {
        Some(config.min_depth)
    } else {
        None
    }
}

/// The devices of the starting points whose metadata could be read, in order.
pub open spec fn devices_found(devs: Seq<Option<u64>>) -> Seq<u64>
    decreases devs.len(),
{
    if devs.len() == 0 {
        Seq::empty()
    } else {
        devices_found(devs.drop_last()) + match devs.last() {
            Some(d) => seq![d],
            None => Seq::empty(),
        }
    }
}

/// The device recorded for starting point `idx` with `-xdev`: the `idx`-th
/// of the devices found (the starting points whose metadata could not be read
/// are dropped from that list, so later starting points take the device of the
/// next one).
pub open spec fn spec_root_device(xdev: bool, devs: Seq<Option<u64>>, idx: int) -> Option<u64> {
    if xdev && 0 <= idx < devices_found(devs).len() {
        Some(devices_found(devs)[idx])
    } else {
        None
    }
}

/// The device of starting point `idx` under `-xdev` (see `spec_root_device`).
pub fn root_device(xdev: bool, devs: &Vec<Option<u64>>, idx: usize) -> (r: Option<u64>)
    ensures
        r == spec_root_device(xdev, devs@, idx as int),
{
    let mut found: Vec<u64> = Vec::new();
    let mut k: usize = 0;
    while k < devs.len()
        invariant
            k <= devs@.len(),
            found@ == devices_found(devs@.take(k as int)),
        decreases devs@.len() - k,
    {
        assert(devs@.take(k + 1).drop_last() =~= devs@.take(k as int));
        match devs[k] {
            Some(d) => found.push(d),
            None => {},
        }
        k += 1;
        assert(found@ =~= devices_found(devs@.take(k as int)));
    }
    assert(devs@.take(k as int) =~= devs@);
    if xdev && idx < found.len() {
        Some(found[idx])
    } else {
        None
    }
}

/// Whether an entry is on the starting point's device (always, without `-xdev`).
pub open spec fn spec_on_root_device(root_dev: Option<u64>, dev: u64) -> bool {
    match root_dev {
        Some(d) => dev == d,
        None => true,
    }
}

pub fn on_root_device(root_dev: Option<u64>, dev: u64) -> (r: bool)
    ensures
        r == spec_on_root_device(root_dev, dev),
{
    match root_dev {
        Some(d) => dev == d,
        None => true,
    }
}

/// Whether the parallel walk keeps an entry: without `-xdev`, or when its
/// metadata cannot be read, always; else when it is on the starting point's
/// device.
pub fn keep_parallel_entry(root_dev: Option<u64>, dev: Option<u64>) -> (r: bool)
    ensures
        r == match dev {
            Some(d) => spec_on_root_device(root_dev, d),
            None => true,
        },
{
    match dev {
        Some(d) => on_root_device(root_dev, d),
        None => true,
    }
}

/// Whether the sequential walk visits an entry at `depth` (not beyond `-maxdepth`).
pub fn depth_allowed(max_depth: Option<usize>, depth: usize) -> (r: bool)
    ensures
        r == match max_depth {
            Some(m) => depth <= m,
            None => true,
        },
{
    match max_depth {
        Some(m) => depth <= m,
        None => true,
    }
}

/// Whether an entry at `depth` is evaluated (at `-mindepth` or deeper).
pub fn evaluates_at(config: &Config, depth: usize) -> (r: bool)
    ensures
        r == (depth >= config.min_depth),
{
    depth >= config.min_depth
}

/// Whether the sequential walk lists a directory's entries: always for a
/// directory with `-depth` (before evaluating it), else for a directory that
/// was not pruned (after evaluating it, when it was).
pub open spec fn spec_descends(depth_first: bool, is_dir: bool, pruned: bool) -> bool {
    is_dir && (depth_first || !pruned)
}

pub fn descends(config: &Config, is_dir: bool, pruned: bool) -> (r: bool)
    ensures
        r == spec_descends(config.depth_first, is_dir, pruned),
{
    is_dir && (config.depth_first || !pruned)
}

/// The type of an entry of the parallel walk: what its `FileType` says, else
/// the type bits of its mode when its metadata can be read, else unknown.
pub fn jwalk_file_type(is_file: bool, is_dir: bool, is_symlink: bool, mode: Option<u32>) -> (r: EntryType)
    ensures
        r == crate::eval::spec_classify(is_file, is_dir, is_symlink, mode),
{
    crate::eval::classify(is_file, is_dir, is_symlink, mode)
}

/// The message for an entry that cannot be read, unless such errors are
/// ignored (`-ignore_readdir_race`): with the path, `` find: `path`: error ``,
/// else `find: error`.
pub open spec fn spec_walk_error(ignore: bool, path: Option<Seq<u8>>, e: Seq<char>) -> Option<Seq<char>> {
    if ignore {
        None
    } else {
        match path {
            Some(p) => Some("find: `"@ + lossy_utf8(p) + "`: "@ + e),
            None => Some("find: "@ + e),
        }
    }
}

pub fn walk_error(config: &Config, path: Option<&[u8]>, e: &str) -> (r: Option<String>)
    ensures
        match r {
            Some(m) => spec_walk_error(config.ignore_readdir_race, match path {
                Some(p) => Some(p@),
                None => None,
            }, e@) == Some(m@),
            None => spec_walk_error(config.ignore_readdir_race, match path {
                Some(p) => Some(p@),
                None => None,
            }, e@) is None,
        },
{
    if config.ignore_readdir_race {
        return None;
    }
    match path {
        Some(p) => {
            let shown = lossy_text(p);
            let a = concat3("find: `", shown.as_str(), "`: ");
            Some(concat2(a.as_str(), e))
        },
        None => Some(concat2("find: ", e)),
    }
}


// ---------------------------------------------------------------------------
// The sequential walk (`-depth`, `-prune`, `-delete`) as a step function
// ---------------------------------------------------------------------------

/// Where the walk stands on one path of the tree.
#[derive(Debug, Clone, Copy, PartialEq, Eq, Structural)]
pub enum Stage {
    /// Not looked at yet.
    Start,
    /// Waiting for its metadata.
    AwaitStat,
    /// Waiting for its evaluation before its contents.
    AwaitPreEval,
    /// Deciding whether to read its contents.
    Descend,
    /// Waiting for its directory listing.
    AwaitList,
    /// Walking its children one after the other.
    Children,
    /// Its contents done: evaluating it after them (`-depth`), or leaving it.
    Post,
    /// Waiting for its evaluation after its contents.
    AwaitPostEval,
}

/// A path being walked: its depth, stage, metadata once read, whether its
/// evaluation pruned it, its children once listed and how many of them the
/// walk has entered.
pub struct Frame {
    pub path: Vec<u8>,
    pub depth: usize,
    pub stage: Stage,
    pub meta: Option<Meta>,
    pub pruned: bool,
    pub children: Vec<Vec<u8>>,
    pub next: usize,
}

pub struct FrameView {
    pub path: Seq<u8>,
    pub depth: int,
    pub stage: Stage,
    pub meta: Option<Meta>,
    pub pruned: bool,
    pub children: Seq<Seq<u8>>,
    pub next: int,
}

pub open spec fn paths_view(v: Seq<Vec<u8>>) -> Seq<Seq<u8>> {
    Seq::new(v.len(), |i: int| v[i]@)
}

impl View for Frame {
    type V = FrameView;

    open spec fn view(&self) -> FrameView {
        FrameView {
            path: self.path@,
            depth: self.depth as int,
            stage: self.stage,
            meta: self.meta,
            pruned: self.pruned,
            children: paths_view(self.children@),
            next: self.next as int,
        }
    }
}

/// The walk below one starting point: the paths being walked, from the
/// starting point down to the current one; the device of the starting point
/// (with `-xdev`); and whether `-quit` has been evaluated.
pub struct WalkState {
    pub frames: Vec<Frame>,
    pub root_dev: Option<u64>,
    pub quit: bool,
}

pub struct WalkView {
    pub frames: Seq<FrameView>,
    pub root_dev: Option<u64>,
    pub quit: bool,
}

pub open spec fn frames_view(v: Seq<Frame>) -> Seq<FrameView> {
    Seq::new(v.len(), |i: int| v[i]@)
}

impl View for WalkState {
    type V = WalkView;

    open spec fn view(&self) -> WalkView {
        WalkView { frames: frames_view(self.frames@), root_dev: self.root_dev, quit: self.quit }
    }
}

/// What the caller reports: nothing (to go on), the metadata of a path
/// (`symlink_metadata`), the paths of a directory's entries (`None` when it
/// cannot be read), or how an evaluation ended.
pub enum WalkEvent {
    Continue,
    Stat(Result<Meta, String>),
    Listed(Option<Vec<Vec<u8>>>),
    Evaluated { pruned: bool, quit: bool },
}

pub enum EventView {
    Continue,
    Stat(Result<Meta, Seq<char>>),
    Listed(Option<Seq<Seq<u8>>>),
    Evaluated { pruned: bool, quit: bool },
}

impl View for WalkEvent {
    type V = EventView;

    open spec fn view(&self) -> EventView {
        match self {
            WalkEvent::Continue => EventView::Continue,
            WalkEvent::Stat(Ok(m)) => EventView::Stat(Ok(*m)),
            WalkEvent::Stat(Err(e)) => EventView::Stat(Err(e@)),
            WalkEvent::Listed(Some(v)) => EventView::Listed(Some(paths_view(v@))),
            WalkEvent::Listed(None) => EventView::Listed(None),
            WalkEvent::Evaluated { pruned, quit } => EventView::Evaluated { pruned: *pruned, quit: *quit },
        }
    }
}

/// What the caller is to do next: call again, read a path's metadata, list a
/// directory, evaluate the expression for an entry, print a warning, or stop.
pub enum WalkAction {
    Continue,
    Stat(Vec<u8>),
    List(Vec<u8>),
    Evaluate { path: Vec<u8>, depth: usize, meta: Meta },
    Warn(String),
    Done,
}

pub enum ActionView {
    Continue,
    Stat(Seq<u8>),
    List(Seq<u8>),
    Evaluate { path: Seq<u8>, depth: int, meta: Meta },
    Warn(Seq<char>),
    Done,
}

impl View for WalkAction {
    type V = ActionView;

    open spec fn view(&self) -> ActionView {
        match self {
            WalkAction::Continue => ActionView::Continue,
            WalkAction::Stat(p) => ActionView::Stat(p@),
            WalkAction::List(p) => ActionView::List(p@),
            WalkAction::Evaluate { path, depth, meta } => ActionView::Evaluate {
                path: path@,
                depth: *depth as int,
                meta: *meta,
            },
            WalkAction::Warn(m) => ActionView::Warn(m@),
            WalkAction::Done => ActionView::Done,
        }
    }
}

/// The walk of a starting point, before its first step.
pub open spec fn spec_walk_start(root: Seq<u8>, root_dev: Option<u64>) -> WalkView {
    WalkView {
        frames: seq![
            FrameView {
                path: root,
                depth: 0,
                stage: Stage::Start,
                meta: None,
                pruned: false,
                children: Seq::empty(),
                next: 0,
            },
        ],
        root_dev,
        quit: false,
    }
}

pub open spec fn set_top(s: WalkView, f: FrameView) -> WalkView {
    WalkView { frames: s.frames.update(s.frames.len() - 1, f), ..s }
}

pub open spec fn pop_top(s: WalkView) -> WalkView {
    WalkView { frames: s.frames.drop_last(), ..s }
}

/// The evaluation of a frame whose metadata has been read.
pub open spec fn evaluation(f: FrameView) -> ActionView {
    match f.meta {
        Some(m) => ActionView::Evaluate { path: f.path, depth: f.depth, meta: m },
        None => ActionView::Continue,
    }
}

/// What a frame waits for, asked again when the event is not its answer.
pub open spec fn pending(f: FrameView) -> ActionView {
    match f.stage {
        Stage::AwaitStat => ActionView::Stat(f.path),
        Stage::AwaitList => ActionView::List(f.path),
        Stage::AwaitPreEval => evaluation(f),
        Stage::AwaitPostEval => evaluation(f),
        _ => ActionView::Continue,
    }
}

/// Whether a frame's metadata says it is a directory.
pub open spec fn frame_is_dir(f: FrameView) -> bool {
    f.meta matches Some(m) && m.is_dir
}

/// One step of the sequential walk. A path deeper than `-maxdepth`, or any
/// path once `-quit` has been evaluated, is left; otherwise its metadata is
/// read (an error is reported, unless ignored, and the path left; a path on
/// another device with `-xdev` is left). It is evaluated before its contents
/// unless `-depth` is given (and only from `-mindepth` on); a directory is
/// then listed unless its evaluation pruned it (pruning is ignored with
/// `-depth`), and its children are walked in order until `-quit` (which,
/// once evaluated, stays in force); with
/// `-depth` it is evaluated after them.
pub open spec fn spec_walk_step(c: ConfigView, s: WalkView, e: EventView) -> (WalkView, ActionView) {
    if s.frames.len() == 0 {
        (s, ActionView::Done)
    } else {
        let f = s.frames.last();
        match f.stage {
            Stage::Start => if s.quit || !(match c.max_depth {
                Some(m) => f.depth <= m,
                None => true,
            }) {
                (pop_top(s), ActionView::Continue)
            } else {
                (set_top(s, FrameView { stage: Stage::AwaitStat, ..f }), ActionView::Stat(f.path))
            },
            Stage::AwaitStat => match e {
                EventView::Stat(Err(m)) => (pop_top(s), match spec_walk_error(
                    c.ignore_readdir_race,
                    Some(f.path),
                    m,
                ) {
                    Some(w) => ActionView::Warn(w),
                    None => ActionView::Continue,
                }),
                EventView::Stat(Ok(m)) => if !spec_on_root_device(s.root_dev, m.dev) {
                    (pop_top(s), ActionView::Continue)
                } else if !c.depth_first && f.depth >= c.min_depth {
                    (
                        set_top(s, FrameView { stage: Stage::AwaitPreEval, meta: Some(m), ..f }),
                        ActionView::Evaluate { path: f.path, depth: f.depth, meta: m },
                    )
                } else {
                    (set_top(s, FrameView { stage: Stage::Descend, meta: Some(m), ..f }), ActionView::Continue)
                },
                _ => (s, pending(f)),
            },
            Stage::AwaitPreEval => match e {
                EventView::Evaluated { pruned, quit } => (
                    WalkView { quit: s.quit || quit, ..set_top(s, FrameView { stage: Stage::Descend, pruned, ..f }) },
                    ActionView::Continue,
                ),
                _ => (s, pending(f)),
            },
            Stage::Descend => if spec_descends(c.depth_first, frame_is_dir(f), f.pruned) {
                (set_top(s, FrameView { stage: Stage::AwaitList, ..f }), ActionView::List(f.path))
            } else {
                (set_top(s, FrameView { stage: Stage::Post, ..f }), ActionView::Continue)
            },
            Stage::AwaitList => match e {
                EventView::Listed(o) => (
                    set_top(
                        s,
                        FrameView {
                            stage: Stage::Children,
                            children: match o {
                                Some(v) => v,
                                None => Seq::empty(),
                            },
                            next: 0,
                            ..f
                        },
                    ),
                    ActionView::Continue,
                ),
                _ => (s, pending(f)),
            },
            Stage::Children => if s.quit || f.next >= f.children.len() || f.depth >= usize::MAX {
                (set_top(s, FrameView { stage: Stage::Post, ..f }), ActionView::Continue)
            } else {
                let child = FrameView {
                    path: f.children[f.next],
                    depth: f.depth + 1,
                    stage: Stage::Start,
                    meta: None,
                    pruned: false,
                    children: Seq::empty(),
                    next: 0,
                };
                (
                    WalkView {
                        frames: set_top(s, FrameView { next: f.next + 1, ..f }).frames.push(child),
                        ..s
                    },
                    ActionView::Continue,
                )
            },
            Stage::Post => if c.depth_first && f.depth >= c.min_depth && f.meta is Some {
                (set_top(s, FrameView { stage: Stage::AwaitPostEval, ..f }), evaluation(f))
            } else {
                (pop_top(s), ActionView::Continue)
            },
            Stage::AwaitPostEval => match e {
                EventView::Evaluated { quit, .. } => (WalkView { quit: s.quit || quit, ..pop_top(s) }, ActionView::Continue),
                _ => (s, pending(f)),
            },
        }
    }
}

fn copy_path(p: &Vec<u8>) -> (r: Vec<u8>)
    ensures
        r@ == p@,
{
    let mut r: Vec<u8> = Vec::new();
    push_all(&mut r, p.as_slice());
    assert(r@ =~= p@);
    r
}

proof fn lemma_frames_replace(v: Seq<Frame>, f: Frame)
    requires
        v.len() > 0,
    ensures
        frames_view(v.drop_last().push(f)) == frames_view(v).update(v.len() - 1, f@),
{
    assert(frames_view(v.drop_last().push(f)) =~= frames_view(v).update(v.len() - 1, f@));
}

proof fn lemma_frames_pop(v: Seq<Frame>)
    requires
        v.len() > 0,
    ensures
        frames_view(v.drop_last()) == frames_view(v).drop_last(),
{
    assert(frames_view(v.drop_last()) =~= frames_view(v).drop_last());
}

proof fn lemma_frames_push2(v: Seq<Frame>, f: Frame, g: Frame)
    requires
        v.len() > 0,
    ensures
        frames_view(v.drop_last().push(f).push(g)) == frames_view(v).update(v.len() - 1, f@).push(g@),
{
    assert(frames_view(v.drop_last().push(f).push(g)) =~= frames_view(v).update(v.len() - 1, f@).push(
        g@,
    ));
}

/// The walk of the starting point `root`, before its first step.
pub fn walk_start(root: Vec<u8>, root_dev: Option<u64>) -> (s: WalkState)
    ensures
        s@ == spec_walk_start(root@, root_dev),
{
    let f = Frame {
        path: root,
        depth: 0,
        stage: Stage::Start,
        meta: None,
        pruned: false,
        children: Vec::new(),
        next: 0,
    };
    let ghost fv = f@;
    let mut frames: Vec<Frame> = Vec::new();
    frames.push(f);
    let s = WalkState { frames, root_dev, quit: false };
    assert(fv.children =~= Seq::<Seq<u8>>::empty());
    assert(s@.frames[0] == spec_walk_start(root@, root_dev).frames[0]);
    assert(s@.frames =~= spec_walk_start(root@, root_dev).frames);
    s
}

/// The evaluation of a frame whose metadata has been read.
fn evaluation_ex(f: &Frame) -> (a: WalkAction)
    ensures
        a@ == evaluation(f@),
{
    match &f.meta {
        Some(m) => WalkAction::Evaluate { path: copy_path(&f.path), depth: f.depth, meta: m.copied() },
        None => WalkAction::Continue,
    }
}

/// What a frame waits for.
fn pending_ex(f: &Frame) -> (a: WalkAction)
    ensures
        a@ == pending(f@),
{
    match f.stage {
        Stage::AwaitStat => WalkAction::Stat(copy_path(&f.path)),
        Stage::AwaitList => WalkAction::List(copy_path(&f.path)),
        Stage::AwaitPreEval => evaluation_ex(f),
        Stage::AwaitPostEval => evaluation_ex(f),
        _ => WalkAction::Continue,
    }
}

/// One step of the sequential walk (see `spec_walk_step`): the caller
/// performs the action returned and reports what came of it as the next event.
pub fn walk_step(config: &Config, st: &mut WalkState, ev: WalkEvent) -> (a: WalkAction)
    ensures
        (final(st)@, a@) == spec_walk_step(config@, old(st)@, ev@),
{
    if st.frames.len() == 0 {
        return WalkAction::Done;
    }
    let ghost v0 = st.frames@;
    let ghost s0 = st@;
    let mut f = st.frames.pop().unwrap();
    assert(f == v0.last());
    assert(st.frames@ == v0.drop_last());
    proof {
        lemma_frames_pop(v0);
    }
    match f.stage {
        Stage::Start => {
            let allowed = depth_allowed(config.max_depth, f.depth);
            if st.quit || !allowed {
                WalkAction::Continue
            } else {
                f.stage = Stage::AwaitStat;
                let a = WalkAction::Stat(copy_path(&f.path));
                st.frames.push(f);
                proof {
                    lemma_frames_replace(v0, f);
                }
                a
            }
        },
        Stage::AwaitStat => match ev {
            WalkEvent::Stat(Err(m)) => match walk_error(config, Some(f.path.as_slice()), m.as_str()) {
                Some(w) => WalkAction::Warn(w),
                None => WalkAction::Continue,
            },
            WalkEvent::Stat(Ok(m)) => {
                if !on_root_device(st.root_dev, m.dev) {
                    WalkAction::Continue
                } else if !config.depth_first && evaluates_at(config, f.depth) {
                    let a = WalkAction::Evaluate { path: copy_path(&f.path), depth: f.depth, meta: m.copied() };
                    f.stage = Stage::AwaitPreEval;
                    f.meta = Some(m);
                    st.frames.push(f);
                    proof {
                        lemma_frames_replace(v0, f);
                    }
                    a
                } else {
                    f.stage = Stage::Descend;
                    f.meta = Some(m);
                    st.frames.push(f);
                    proof {
                        lemma_frames_replace(v0, f);
                    }
                    WalkAction::Continue
                }
            },
            _ => {
                let a = pending_ex(&f);
                st.frames.push(f);
                proof {
                    lemma_frames_replace(v0, f);
                    assert(frames_view(v0).update(v0.len() - 1, f@) =~= frames_view(v0));
                }
                a
            },
        },
        Stage::AwaitPreEval => match ev {
            WalkEvent::Evaluated { pruned, quit } => {
                f.stage = Stage::Descend;
                f.pruned = pruned;
                st.frames.push(f);
                st.quit = st.quit || quit;
                proof {
                    lemma_frames_replace(v0, f);
                }
                WalkAction::Continue
            },
            _ => {
                let a = pending_ex(&f);
                st.frames.push(f);
                proof {
                    lemma_frames_replace(v0, f);
                    assert(frames_view(v0).update(v0.len() - 1, f@) =~= frames_view(v0));
                }
                a
            },
        },
        Stage::Descend => {
            let is_dir = match &f.meta {
                Some(m) => m.is_dir,
                None => false,
            };
            if descends(config, is_dir, f.pruned) {
                f.stage = Stage::AwaitList;
                let a = WalkAction::List(copy_path(&f.path));
                st.frames.push(f);
                proof {
                    lemma_frames_replace(v0, f);
                }
                a
            } else {
                f.stage = Stage::Post;
                st.frames.push(f);
                proof {
                    lemma_frames_replace(v0, f);
                }
                WalkAction::Continue
            }
        },
        Stage::AwaitList => match ev {
            WalkEvent::Listed(o) => {
                f.stage = Stage::Children;
                f.children = match o {
                    Some(v) => v,
                    None => Vec::new(),
                };
                f.next = 0;
                st.frames.push(f);
                proof {
                    assert(paths_view(Seq::<Vec<u8>>::empty()) =~= Seq::<Seq<u8>>::empty());
                    lemma_frames_replace(v0, f);
                }
                WalkAction::Continue
            },
            _ => {
                let a = pending_ex(&f);
                st.frames.push(f);
                proof {
                    lemma_frames_replace(v0, f);
                    assert(frames_view(v0).update(v0.len() - 1, f@) =~= frames_view(v0));
                }
                a
            },
        },
        Stage::Children => {
            if st.quit || f.next >= f.children.len() || f.depth >= usize::MAX {
                f.stage = Stage::Post;
                st.frames.push(f);
                proof {
                    lemma_frames_replace(v0, f);
                }
                WalkAction::Continue
            } else {
                let child = Frame {
                    path: copy_path(&f.children[f.next]),
                    depth: f.depth + 1,
                    stage: Stage::Start,
                    meta: None,
                    pruned: false,
                    children: Vec::new(),
                    next: 0,
                };
                f.next = f.next + 1;
                st.frames.push(f);
                st.frames.push(child);
                proof {
                    assert(paths_view(Seq::<Vec<u8>>::empty()) =~= Seq::<Seq<u8>>::empty());
                    lemma_frames_push2(v0, f, child);
                }
                WalkAction::Continue
            }
        },
        Stage::Post => {
            if config.depth_first && evaluates_at(config, f.depth) && f.meta.is_some() {
                let a = evaluation_ex(&f);
                f.stage = Stage::AwaitPostEval;
                st.frames.push(f);
                proof {
                    lemma_frames_replace(v0, f);
                }
                a
            } else {
                WalkAction::Continue
            }
        },
        Stage::AwaitPostEval => match ev {
            WalkEvent::Evaluated { quit, .. } => {
                st.quit = st.quit || quit;
                WalkAction::Continue
            },
            _ => {
                let a = pending_ex(&f);
                st.frames.push(f);
                proof {
                    lemma_frames_replace(v0, f);
                    assert(frames_view(v0).update(v0.len() - 1, f@) =~= frames_view(v0));
                }
                a
            },
        },
    }
}

// ---------------------------------------------------------------------------
// What the sequential walk keeps
// ---------------------------------------------------------------------------

/// The stages before a path's children are listed.
pub open spec fn before_listing(st: Stage) -> bool {
    st == Stage::Start || st == Stage::AwaitStat || st == Stage::AwaitPreEval || st == Stage::Descend
        || st == Stage::AwaitList
}

/// What holds of each path being walked: no children before it is listed;
/// once past its children, all of them have been entered (unless `-quit`
/// stopped the walk); no evaluation before its contents with `-depth`; and,
/// without `-depth`, a pruned path is neither listed nor walked into.
pub open spec fn frame_ok(c: ConfigView, quit: bool, f: FrameView) -> bool {
    &&& before_listing(f.stage) ==> f.children.len() == 0 && f.next == 0
    &&& 0 <= f.next <= f.children.len()
    &&& (f.stage == Stage::AwaitPreEval || f.stage == Stage::AwaitPostEval) ==> c.min_depth <= f.depth
    &&& f.stage != Stage::Start ==> (c.max_depth matches Some(m) ==> f.depth <= m)
    &&& (f.stage == Stage::Post || f.stage == Stage::AwaitPostEval) ==> (quit || f.next
        >= f.children.len() || f.depth >= usize::MAX)
    &&& c.depth_first ==> f.stage != Stage::AwaitPreEval
    &&& !c.depth_first ==> f.stage != Stage::AwaitPostEval
    &&& (!c.depth_first && f.pruned) ==> f.stage != Stage::AwaitList && f.stage != Stage::Children
        && f.children.len() == 0
}

/// The invariant of the sequential walk: every path below the innermost one
/// is a directory whose children are being walked, and none of them was
/// pruned (without `-depth`); every path satisfies `frame_ok`.
pub open spec fn walk_inv(c: ConfigView, s: WalkView) -> bool {
    &&& forall|i: int| 0 <= i < s.frames.len() - 1 ==> #[trigger] s.frames[i].stage == Stage::Children
    &&& forall|i: int| 0 <= i < s.frames.len() - 1 ==> !(!c.depth_first && #[trigger] s.frames[i].pruned)
    &&& forall|i: int| 0 <= i < s.frames.len() ==> frame_ok(c, s.quit, #[trigger] s.frames[i])
}

/// The walk starts in a state satisfying the invariant.
pub proof fn lemma_walk_start(c: ConfigView, root: Seq<u8>, root_dev: Option<u64>)
    ensures
        walk_inv(c, spec_walk_start(root, root_dev)),
{
    let s = spec_walk_start(root, root_dev);
    assert(frame_ok(c, s.quit, s.frames[0]));
}

/// Every step keeps the invariant.
pub proof fn lemma_walk_step_inv(c: ConfigView, s: WalkView, e: EventView)
    requires
        walk_inv(c, s),
    ensures
        walk_inv(c, spec_walk_step(c, s, e).0),
{
    if s.frames.len() > 0 {
        let f = s.frames.last();
        let n = s.frames.len() - 1;
        assert(frame_ok(c, s.quit, s.frames[n]));
        let s2 = spec_walk_step(c, s, e).0;
        assert forall|i: int| 0 <= i < s2.frames.len() implies frame_ok(c, s2.quit, #[trigger] s2.frames[i]) by {
            if i < n {
                assert(frame_ok(c, s.quit, s.frames[i]));
                assert(s.frames[i].stage == Stage::Children);
            }
        }
        assert forall|i: int| 0 <= i < s2.frames.len() - 1 implies #[trigger] s2.frames[i].stage == Stage::Children by {
            if i < n {
                assert(s.frames[i].stage == Stage::Children);
            }
        }
        assert forall|i: int| 0 <= i < s2.frames.len() - 1 implies !(!c.depth_first && #[trigger] s2.frames[i].pruned) by {
            if i < n {
                assert(!(!c.depth_first && s.frames[i].pruned));
            }
        }
    }
}

/// With `-depth`, a path is evaluated only after its contents: the step that
/// asks for an evaluation leaves that path the innermost one being walked
/// (every child entered has been left), with all its children entered unless
/// `-quit` stopped the walk; and no path is evaluated before its children.
pub proof fn lemma_depth_first_after_contents(c: ConfigView, s: WalkView, e: EventView)
    requires
        walk_inv(c, s),
        c.depth_first,
    ensures
        ({
            let (s2, a) = spec_walk_step(c, s, e);
            a is Evaluate ==> {
                let f = s2.frames.last();
                &&& s2.frames.len() == s.frames.len()
                &&& f.stage == Stage::AwaitPostEval
                &&& (s2.quit || f.next >= f.children.len() || f.depth >= usize::MAX)
                &&& forall|i: int| 0 <= i < s2.frames.len() - 1 ==> #[trigger] s2.frames[i].stage
                    == Stage::Children
            }
        }),
{
    lemma_walk_step_inv(c, s, e);
    if s.frames.len() > 0 {
        let n = s.frames.len() - 1;
        assert(frame_ok(c, s.quit, s.frames[n]));
        let s2 = spec_walk_step(c, s, e).0;
        if s2.frames.len() > 0 {
            assert(frame_ok(c, s2.quit, s2.frames[s2.frames.len() - 1]));
        }
    }
}

/// Without `-depth`, a pruned directory yields nothing below it: no path
/// being walked lies below a pruned one, a pruned path is never listed, and
/// no path evaluated lies below a pruned one.
pub proof fn lemma_pruned_not_entered(c: ConfigView, s: WalkView, e: EventView)
    requires
        walk_inv(c, s),
        !c.depth_first,
    ensures
        forall|i: int| 0 <= i < s.frames.len() - 1 ==> !(#[trigger] s.frames[i]).pruned,
        s.frames.len() > 0 && s.frames.last().pruned ==> !(spec_walk_step(c, s, e).1 is List),
        ({
            let (s2, a) = spec_walk_step(c, s, e);
            a is Evaluate ==> forall|i: int| 0 <= i < s2.frames.len() - 1 ==> !(#[trigger] s2.frames[i]).pruned
        }),
{
    lemma_walk_step_inv(c, s, e);
    let s2 = spec_walk_step(c, s, e).0;
    assert forall|i: int| 0 <= i < s2.frames.len() - 1 implies !(#[trigger] s2.frames[i]).pruned by {
        assert(!(!c.depth_first && s2.frames[i].pruned));
    }
    assert forall|i: int| 0 <= i < s.frames.len() - 1 implies !(#[trigger] s.frames[i]).pruned by {
        assert(!(!c.depth_first && s.frames[i].pruned));
    }
    if s.frames.len() > 0 {
        assert(frame_ok(c, s.quit, s.frames[s.frames.len() - 1]));
    }
}

/// The state after a run of steps, one for each event.
pub open spec fn run(c: ConfigView, s: WalkView, es: Seq<EventView>) -> WalkView
    decreases es.len(),
{
    if es.len() == 0 {
        s
    } else {
        run(c, spec_walk_step(c, s, es[0]).0, es.drop_first())
    }
}

/// The path at depth position `k` stays open through the whole run.
pub open spec fn stays(c: ConfigView, s: WalkView, es: Seq<EventView>, k: int) -> bool
    decreases es.len(),
{
    &&& s.frames.len() > k
    &&& es.len() > 0 ==> stays(c, spec_walk_step(c, s, es[0]).0, es.drop_first(), k)
}

/// The paths the run enters just below position `k`, in order.
pub open spec fn entered(c: ConfigView, s: WalkView, es: Seq<EventView>, k: int) -> Seq<Seq<u8>>
    decreases es.len(),
{
    if es.len() == 0 {
        Seq::empty()
    } else {
        let s1 = spec_walk_step(c, s, es[0]).0;
        (if s.frames.len() == k + 1 && s1.frames.len() == k + 2 {
            seq![s1.frames[k + 1].path]
        } else {
            Seq::empty()
        }) + entered(c, s1, es.drop_first(), k)
    }
}

/// The stages once a path's children are listed.
pub open spec fn after_listing(st: Stage) -> bool {
    st == Stage::Children || st == Stage::Post || st == Stage::AwaitPostEval
}

/// Over any run during which a listed directory stays open, the walk enters
/// its children one after the other in the order of the listing, each once,
/// from the first not yet entered on; the listing itself does not change.
/// (Once past its children, all of them have been entered unless `-quit`
/// stopped the walk: `frame_ok`.)
pub proof fn lemma_children_entered_in_order(c: ConfigView, s: WalkView, es: Seq<EventView>, k: int)
    requires
        walk_inv(c, s),
        stays(c, s, es, k),
        0 <= k,
        after_listing(s.frames[k].stage),
    ensures
        ({
            let f0 = s.frames[k];
            let f1 = run(c, s, es).frames[k];
            &&& f1.path == f0.path
            &&& f1.children == f0.children
            &&& after_listing(f1.stage)
            &&& f0.next <= f1.next <= f0.children.len()
            &&& entered(c, s, es, k) == f0.children.subrange(f0.next, f1.next)
        }),
    decreases es.len(),
{
    let f0 = s.frames[k];
    assert(frame_ok(c, s.quit, s.frames[k]));
    if es.len() == 0 {
        assert(f0.children.subrange(f0.next, f0.next) =~= Seq::<Seq<u8>>::empty());
    } else {
        let s1 = spec_walk_step(c, s, es[0]).0;
        lemma_walk_step_inv(c, s, es[0]);
        assert(stays(c, s1, es.drop_first(), k));
        let n = s.frames.len() - 1;
        assert(frame_ok(c, s.quit, s.frames[n]));
        let g = s1.frames[k];
        assert(g.path == f0.path && g.children == f0.children && after_listing(g.stage));
        assert(f0.next <= g.next);
        lemma_children_entered_in_order(c, s1, es.drop_first(), k);
        let f2 = run(c, s1, es.drop_first()).frames[k];
        assert(run(c, s, es) == run(c, s1, es.drop_first()));
        if s.frames.len() == k + 1 && s1.frames.len() == k + 2 {
            assert(g.next == f0.next + 1);
            assert(s1.frames[k + 1].path == f0.children[f0.next]);
            assert(seq![f0.children[f0.next]] + f0.children.subrange(g.next, f2.next) =~= f0.children.subrange(
                f0.next,
                f2.next,
            ));
        } else {
            assert(g.next == f0.next);
            assert(Seq::<Seq<u8>>::empty() + f0.children.subrange(g.next, f2.next) =~= f0.children.subrange(
                f0.next,
                f2.next,
            ));
        }
    }
}

/// Every entry the walk evaluates, with or without `-depth`, lies between
/// `-mindepth` and `-maxdepth`: an evaluation is asked for only at a depth of
/// at least `-mindepth` and, with `-maxdepth`, at most it; and it is the
/// evaluation of the path being walked, at its depth. Without `-depth` the
/// evaluation comes before the path's contents are listed; with it, after.
pub proof fn lemma_evaluated_within_depths(c: ConfigView, s: WalkView, e: EventView)
    requires
        walk_inv(c, s),
    ensures
        ({
            let (s2, a) = spec_walk_step(c, s, e);
            a matches ActionView::Evaluate { path, depth, .. } ==> {
                &&& c.min_depth <= depth
                &&& (c.max_depth matches Some(m) ==> depth <= m)
                &&& s2.frames.len() > 0
                &&& path == s2.frames.last().path
                &&& depth == s2.frames.last().depth
                &&& !c.depth_first ==> s2.frames.last().stage == Stage::AwaitPreEval
                    && s2.frames.last().children.len() == 0
                &&& c.depth_first ==> s2.frames.last().stage == Stage::AwaitPostEval
            }
        }),
{
    lemma_walk_step_inv(c, s, e);
    if s.frames.len() > 0 {
        let n = s.frames.len() - 1;
        assert(frame_ok(c, s.quit, s.frames[n]));
        let s2 = spec_walk_step(c, s, e).0;
        if s2.frames.len() > 0 {
            assert(frame_ok(c, s2.quit, s2.frames[s2.frames.len() - 1]));
        }
    }
}

} // verus!

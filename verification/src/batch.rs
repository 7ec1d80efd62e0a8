//! The commands of batched `-exec ... +` and `-execdir ... +`, built when the
//! walk ends.
use vstd::prelude::*;

use crate::eval::{
    Batch, BatchPath, BatchPathView, BatchView, CommandLine, CommandView, EvalContext,
    batch_path_view, batch_view, batches_view,
};
use crate::expr::{ArgView, ExecArg, args_view, arg_view, strings_view};
use crate::text::{push_all, slice_eq, string_from_chars, text_or_empty, text_or_empty_of};

verus! {

// ---------------------------------------------------------------------------
// Running the batched commands
// ---------------------------------------------------------------------------

/// The words of a batched command: each `{}` replaced by all the paths, or
/// the paths after the arguments when there is no `{}`.
pub open spec fn expand_args(args: Seq<ArgView>, texts: Seq<Seq<char>>) -> Seq<Seq<char>>
    decreases args.len(),
{
    if args.len() == 0 {
        Seq::empty()
    } else {
        expand_args(args.drop_last(), texts) + match args.last() {
            ArgView::Literal(s) => seq![s],
            ArgView::Placeholder => texts,
        }
    }
}

pub open spec fn has_placeholder(args: Seq<ArgView>) -> bool {
    exists|i: int| 0 <= i < args.len() && args[i] is Placeholder
}

pub open spec fn batch_words(args: Seq<ArgView>, texts: Seq<Seq<char>>) -> Seq<Seq<char>> {
    expand_args(args, texts) + if has_placeholder(args) {
        Seq::empty()
    } else {
        texts
    }
}

/// The command of a list of words (none when there are no words).
pub open spec fn command_of(words: Seq<Seq<char>>, dir: Option<Seq<u8>>) -> Seq<CommandView> {
    if words.len() == 0 {
        Seq::empty()
    } else {
        seq![CommandView { program: words[0], args: words.drop_first(), dir }]
    }
}

/// Paths as text (`to_str().unwrap_or("")`).
pub open spec fn path_texts(ps: Seq<Seq<u8>>) -> Seq<Seq<char>> {
    Seq::new(ps.len(), |i: int| text_or_empty(ps[i]))
}

/// The directory `-execdir ... +` runs in for a path: its parent, `.` when
/// the path has no directory part.
pub open spec fn dir_of(p: BatchPathView) -> Seq<u8> {
    match p.parent {
        Some(d) => if d.len() == 0 {
            seq![46u8]
        } else {
            d
        },
        None => seq![46u8],
    }
}

/// The path `-execdir ... +` passes: `./` and the file name.
pub open spec fn name_in_dir(p: BatchPathView) -> Seq<u8> {
    seq![46u8, 47u8] + match p.name {
        Some(n) => n,
        None => Seq::empty(),
    }
}

/// The paths of one directory.
pub struct DirGroup {
    pub dir: Seq<u8>,
    pub names: Seq<Seq<u8>>,
}

pub open spec fn find_group(gs: Seq<DirGroup>, d: Seq<u8>, k: int) -> Option<int>
    decreases gs.len() - k,
{
    if k < 0 || k >= gs.len() {
        None
    } else if gs[k].dir == d {
        Some(k)
    } else {
        find_group(gs, d, k + 1)
    }
}

pub open spec fn add_to_groups(gs: Seq<DirGroup>, d: Seq<u8>, n: Seq<u8>) -> Seq<DirGroup> {
    match find_group(gs, d, 0) {
        Some(k) => gs.update(k, DirGroup { names: gs[k].names.push(n), ..gs[k] }),
        None => gs.push(DirGroup { dir: d, names: seq![n] }),
    }
}

/// The paths grouped by directory, the directories in the order they first
/// occur.
pub open spec fn group_by_dir(ps: Seq<BatchPathView>) -> Seq<DirGroup>
    decreases ps.len(),
{
    if ps.len() == 0 {
        Seq::empty()
    } else {
        add_to_groups(group_by_dir(ps.drop_last()), dir_of(ps.last()), name_in_dir(ps.last()))
    }
}

pub open spec fn group_commands(args: Seq<ArgView>, gs: Seq<DirGroup>) -> Seq<CommandView>
    decreases gs.len(),
{
    if gs.len() == 0 {
        Seq::empty()
    } else {
        group_commands(args, gs.drop_last()) + command_of(
            batch_words(args, path_texts(gs.last().names)),
            Some(gs.last().dir),
        )
    }
}

/// The commands of one batch: none without paths; one per directory for
/// `-execdir`; else one with all the paths.
pub open spec fn batch_commands(b: BatchView) -> Seq<CommandView> {
    if b.paths.len() == 0 {
        Seq::empty()
    } else if b.in_dir {
        group_commands(b.args, group_by_dir(b.paths))
    } else {
        command_of(batch_words(b.args, path_texts(Seq::new(b.paths.len(), |i: int| b.paths[i].path))), None)
    }
}

pub open spec fn flush_commands(bs: Seq<BatchView>) -> Seq<CommandView>
    decreases bs.len(),
{
    if bs.len() == 0 {
        Seq::empty()
    } else {
        flush_commands(bs.drop_last()) + batch_commands(bs.last())
    }
}

pub open spec fn commands_view(v: Seq<CommandLine>) -> Seq<CommandView> {
    Seq::new(v.len(), |i: int| v[i]@)
}

/// A copy of a list of strings.
fn append_strings(dst: &mut Vec<String>, src: &Vec<String>)
    ensures
        strings_view(final(dst)@) == strings_view(old(dst)@) + strings_view(src@),
{
    let mut i: usize = 0;
    while i < src.len()
        invariant
            i <= src@.len(),
            strings_view(dst@) == strings_view(old(dst)@) + strings_view(src@).take(i as int),
        decreases src@.len() - i,
    {
        let ghost before = dst@;
        dst.push(src[i].clone());
        assert(strings_view(dst@) =~= strings_view(before).push(src@[i as int]@));
        i += 1;
        assert(strings_view(dst@) =~= strings_view(old(dst)@) + strings_view(src@).take(i as int));
    }
    assert(strings_view(src@).take(i as int) =~= strings_view(src@));
}

/// The command of a list of words: the first word is the program.
pub fn command_from_words(words: Vec<String>, dir: Option<Vec<u8>>) -> (r: Option<CommandLine>)
    ensures
        match r {
            Some(c) => command_of(strings_view(words@), crate::eval::opt_bytes(dir)) == seq![c@],
            None => command_of(strings_view(words@), crate::eval::opt_bytes(dir)) == Seq::<CommandView>::empty(),
        },
{
    if words.len() == 0 {
        return None;
    }
    let program = words[0].clone();
    let mut rest: Vec<String> = Vec::new();
    let mut i: usize = 1;
    while i < words.len()
        invariant
            1 <= i <= words@.len(),
            strings_view(rest@) == strings_view(words@).subrange(1, i as int),
        decreases words@.len() - i,
    {
        let ghost before = rest@;
        rest.push(words[i].clone());
        assert(strings_view(rest@) =~= strings_view(before).push(words@[i as int]@));
        i += 1;
        assert(strings_view(rest@) =~= strings_view(words@).subrange(1, i as int));
    }
    assert(strings_view(rest@) =~= strings_view(words@).drop_first());
    let c = CommandLine { program, args: rest, dir };
    assert(command_of(strings_view(words@), crate::eval::opt_bytes(dir)) =~= seq![c@]);
    Some(c)
}

/// The paths as text.
fn path_texts_ex(paths: &Vec<Vec<u8>>) -> (v: Vec<String>)
    ensures
        strings_view(v@) == path_texts(Seq::new(paths@.len(), |i: int| paths@[i]@)),
{
    let ghost ps = Seq::new(paths@.len(), |i: int| paths@[i]@);
    let mut v: Vec<String> = Vec::new();
    let mut i: usize = 0;
    while i < paths.len()
        invariant
            i <= paths@.len(),
            ps == Seq::new(paths@.len(), |i: int| paths@[i]@),
            strings_view(v@) == path_texts(ps).take(i as int),
        decreases paths@.len() - i,
    {
        let t = text_or_empty_of(paths[i].as_slice());
        let ghost before = v@;
        v.push(string_from_chars(t.as_slice()));
        assert(strings_view(v@) =~= strings_view(before).push(path_texts(ps)[i as int]));
        i += 1;
        assert(strings_view(v@) =~= path_texts(ps).take(i as int));
    }
    assert(path_texts(ps).take(i as int) =~= path_texts(ps));
    v
}

/// Build a batched command: each `{}` replaced by all the paths (or the paths
/// after the arguments when there is no `{}`), run in `dir` when given.
pub fn exec_batch_command(exec_args: &Vec<ExecArg>, paths: &Vec<Vec<u8>>, dir: Option<Vec<u8>>) -> (r: Option<CommandLine>)
    ensures
        ({
            let cs = command_of(
                batch_words(args_view(exec_args@), path_texts(Seq::new(paths@.len(), |i: int| paths@[i]@))),
                crate::eval::opt_bytes(dir),
            );
            match r {
                Some(c) => cs == seq![c@],
                None => cs == Seq::<CommandView>::empty(),
            }
        }),
{
    let texts = path_texts_ex(paths);
    let ghost tv = strings_view(texts@);
    let ghost av = args_view(exec_args@);
    let mut parts: Vec<String> = Vec::new();
    let mut seen = false;
    let mut i: usize = 0;
    while i < exec_args.len()
        invariant
            i <= exec_args@.len(),
            tv == strings_view(texts@),
            av == args_view(exec_args@),
            strings_view(parts@) == expand_args(av.take(i as int), tv),
            seen == has_placeholder(av.take(i as int)),
        decreases exec_args@.len() - i,
    {
        assert(av.take(i + 1).drop_last() =~= av.take(i as int));
        assert(av.take(i + 1).last() == arg_view(exec_args@[i as int]));
        match &exec_args[i] {
            ExecArg::Literal(s) => {
                let ghost before = parts@;
                parts.push(s.clone());
                assert(strings_view(parts@) =~= strings_view(before) + seq![s@]);
            },
            ExecArg::Placeholder => {
                seen = true;
                append_strings(&mut parts, &texts);
            },
        }
        proof {
            if seen {
                if !has_placeholder(av.take(i as int)) {
                    assert(av.take(i + 1)[i as int] is Placeholder);
                }
            } else {
                assert forall|j: int| 0 <= j < i + 1 implies !(#[trigger] av.take(i + 1)[j] is Placeholder) by {
                    if j < i {
                        assert(av.take(i + 1)[j] == av.take(i as int)[j]);
                    }
                }
            }
        }
        i += 1;
    }
    assert(av.take(i as int) =~= av);
    if !seen {
        append_strings(&mut parts, &texts);
    } else {
        assert(strings_view(parts@) =~= strings_view(parts@) + Seq::<Seq<char>>::empty());
    }
    command_from_words(parts, dir)
}

/// The paths of one directory, in executable form.
struct DirNames {
    dir: Vec<u8>,
    names: Vec<Vec<u8>>,
}

spec fn names_view(v: Seq<Vec<u8>>) -> Seq<Seq<u8>> {
    Seq::new(v.len(), |i: int| v[i]@)
}

spec fn groups_view(v: Seq<DirNames>) -> Seq<DirGroup> {
    Seq::new(v.len(), |i: int| DirGroup { dir: v[i].dir@, names: names_view(v[i].names@) })
}

proof fn lemma_find_group(gs: Seq<DirGroup>, d: Seq<u8>, k: int)
    requires
        0 <= k <= gs.len(),
        forall|j: int| 0 <= j < k ==> gs[j].dir != d,
    ensures
        find_group(gs, d, 0) == find_group(gs, d, k),
    decreases k,
{
    if k > 0 {
        lemma_find_group(gs, d, k - 1);
    }
}

fn copy_bytes(b: &[u8]) -> (v: Vec<u8>)
    ensures
        v@ == b@,
{
    let mut v: Vec<u8> = Vec::new();
    push_all(&mut v, b);
    v
}

/// Add a name to its directory's group, or start a group.
fn add_to_groups_ex(gs: &mut Vec<DirNames>, d: Vec<u8>, n: Vec<u8>)
    ensures
        groups_view(final(gs)@) == add_to_groups(groups_view(old(gs)@), d@, n@),
{
    let ghost g0 = groups_view(gs@);
    let mut k: usize = 0;
    while k < gs.len()
        invariant
            k <= gs@.len(),
            g0 == groups_view(gs@),
            gs@ == old(gs)@,
            forall|j: int| 0 <= j < k ==> g0[j].dir != d@,
        decreases gs@.len() - k,
    {
        if slice_eq(gs[k].dir.as_slice(), d.as_slice()) {
            proof {
                lemma_find_group(g0, d@, k as int);
            }
            let mut g = gs.remove(k);
            let ghost before = g.names@;
            g.names.push(n);
            gs.insert(k, g);
            assert(groups_view(gs@) =~= add_to_groups(g0, d@, n@)) by {
                assert(names_view(gs@[k as int].names@) =~= names_view(before).push(n@));
            }
            return;
        }
        k += 1;
    }
    proof {
        lemma_find_group(g0, d@, k as int);
    }
    let mut names: Vec<Vec<u8>> = Vec::new();
    names.push(n);
    gs.push(DirNames { dir: d, names });
    assert(groups_view(gs@) =~= add_to_groups(g0, d@, n@)) by {
        assert(names_view(gs@[k as int].names@) =~= seq![n@]);
    }
}

/// The paths grouped by directory.
fn group_by_dir_ex(paths: &Vec<BatchPath>) -> (r: Vec<DirNames>)
    ensures
        groups_view(r@) == group_by_dir(Seq::new(paths@.len(), |i: int| batch_path_view(paths@[i]))),
{
    let ghost ps = Seq::new(paths@.len(), |i: int| batch_path_view(paths@[i]));
    let mut gs: Vec<DirNames> = Vec::new();
    let mut i: usize = 0;
    assert(groups_view(gs@) =~= group_by_dir(ps.take(0)));
    while i < paths.len()
        invariant
            i <= paths@.len(),
            ps == Seq::new(paths@.len(), |i: int| batch_path_view(paths@[i])),
            groups_view(gs@) == group_by_dir(ps.take(i as int)),
        decreases paths@.len() - i,
    {
        let p = &paths[i];
        let d = match &p.parent {
            Some(x) if x.len() > 0 => copy_bytes(x.as_slice()),
            _ => {
                let mut v: Vec<u8> = Vec::new();
                v.push(46u8);
                v
            },
        };
        let mut n: Vec<u8> = Vec::new();
        n.push(46u8);
        n.push(47u8);
        match &p.name {
            Some(x) => push_all(&mut n, x.as_slice()),
            None => {},
        }
        assert(d@ =~= dir_of(ps[i as int]));
        assert(n@ =~= name_in_dir(ps[i as int]));
        assert(ps.take(i + 1).drop_last() =~= ps.take(i as int));
        add_to_groups_ex(&mut gs, d, n);
        i += 1;
    }
    assert(ps.take(i as int) =~= ps);
    gs
}

fn command_list_push(cmds: &mut Vec<CommandLine>, c: Option<CommandLine>)
    ensures
        match c {
            Some(x) => final(cmds)@ == old(cmds)@.push(x),
            None => final(cmds)@ == old(cmds)@,
        },
{
    match c {
        Some(x) => cmds.push(x),
        None => {},
    }
}

/// The commands of the batched `-exec ... +` / `-execdir ... +`, in the order
/// the batches were started (for `-execdir`, one per directory, in the order
/// the directories first occur); the batches are emptied.
pub fn flush_batch_exec(ctx: &mut EvalContext) -> (cmds: Vec<CommandLine>)
    ensures
        commands_view(cmds@) == flush_commands(batches_view(old(ctx).batch_exec@)),
        final(ctx).batch_exec@.len() == 0,
        final(ctx).now == old(ctx).now,
        final(ctx).daystart == old(ctx).daystart,
        final(ctx).daystart_time == old(ctx).daystart_time,
        final(ctx).starting_point == old(ctx).starting_point,
        final(ctx).depth == old(ctx).depth,
        final(ctx).quit == old(ctx).quit,
{
    let ghost bs = batches_view(ctx.batch_exec@);
    let mut batches: Vec<Batch> = Vec::new();
    std::mem::swap(&mut batches, &mut ctx.batch_exec);
    let mut cmds: Vec<CommandLine> = Vec::new();
    let mut i: usize = 0;
    while i < batches.len()
        invariant
            i <= batches@.len(),
            bs == batches_view(batches@),
            commands_view(cmds@) == flush_commands(bs.take(i as int)),
        decreases batches@.len() - i,
    {
        let b = &batches[i];
        let ghost before = cmds@;
        assert(bs.take(i + 1).drop_last() =~= bs.take(i as int));
        assert(bs[i as int] == batch_view(*b));
        if b.paths.len() == 0 {
        } else if b.in_dir {
            let gs = group_by_dir_ex(&b.paths);
            let ghost gv = groups_view(gs@);
            let mut k: usize = 0;
            while k < gs.len()
                invariant
                    k <= gs@.len(),
                    gv == groups_view(gs@),
                    commands_view(cmds@) == commands_view(before)
                        + group_commands(args_view(b.args@), gv.take(k as int)),
                decreases gs@.len() - k,
            {
                let c = exec_batch_command(&b.args, &gs[k].names, Some(copy_bytes(gs[k].dir.as_slice())));
                assert(gv.take(k + 1).drop_last() =~= gv.take(k as int));
                assert(Seq::new(gs@[k as int].names@.len(), |j: int| gs@[k as int].names@[j]@) =~= gv[k as int].names);
                let ghost mid = cmds@;
                let ghost cs = command_of(
                    batch_words(args_view(b.args@), path_texts(gv[k as int].names)),
                    Some(gv[k as int].dir),
                );
                command_list_push(&mut cmds, c);
                assert(commands_view(cmds@) =~= commands_view(mid) + cs);
                assert(gv.take(k + 1).last() == gv[k as int]);
                k += 1;
                assert(commands_view(cmds@) =~= commands_view(before)
                    + group_commands(args_view(b.args@), gv.take(k as int)));
            }
            assert(gv.take(k as int) =~= gv);
        } else {
            let mut ps: Vec<Vec<u8>> = Vec::new();
            let mut k: usize = 0;
            while k < b.paths.len()
                invariant
                    k <= b.paths@.len(),
                    ps@.len() == k,
                    forall|j: int| 0 <= j < k ==> #[trigger] ps@[j]@ == b.paths@[j].path@,
                decreases b.paths@.len() - k,
            {
                ps.push(copy_bytes(b.paths[k].path.as_slice()));
                k += 1;
            }
            let c = exec_batch_command(&b.args, &ps, None);
            assert(Seq::new(ps@.len(), |j: int| ps@[j]@) =~= Seq::new(
                bs[i as int].paths.len(),
                |j: int| bs[i as int].paths[j].path,
            ));
            command_list_push(&mut cmds, c);
        }
        i += 1;
        assert(commands_view(cmds@) =~= flush_commands(bs.take(i as int)));
    }
    assert(bs.take(i as int) =~= bs);
    cmds
}

} // verus!

//! The project tree and the pane that shows it.

use vstd::prelude::*;
use vstd::slice::slice_subrange;
use crate::components::editor::{Buffers, Editing, EditingView};
use crate::components::{Components, ComponentsView};
use crate::ui::container::{Container, ContainerType, InsertError};
use crate::ui::framework::Framework;
use crate::named_pipe::{
    opened,
    posted,
    send_outcome,
    EditingHandle,
    Mailbox,
    MailboxError,
    NamedPipe,
    PipeObject,
    SenderHandle,
};
use crate::renderer::{
    clamped_add,
    cleared_style,
    entry_style,
    title_style,
    Drawn,
    Renderer,
    Screen,
    Style,
};
use crate::text::{append_chars, chars_of, fit, fitted};
use crate::ui::container::clamped_sub;
use crate::ui::path::{pieces, split_all};
use crate::ui::{InputEvent, KeyCode, KeyEventKind};

verus! {

/// What an entry of the project tree is.
#[derive(Clone, Copy, Debug, PartialEq, Eq, Structural)]
pub enum PathType {
    File,
    Directory,
    SymLink,
    /// Something else, or the placeholder shown in a directory without
    /// entries.
    Unknown,
}

/// An entry of the project tree with what lies below it.
pub struct Path {
    pub name: String,
    pub ptype: PathType,
    /// Whether the entries below this one are shown.
    pub unfolded: bool,
    pub children: Vec<Path>,
}

/// An entry of the project tree as contracts see it.
pub struct PathView {
    pub name: Seq<char>,
    pub ptype: PathType,
    pub unfolded: bool,
    pub children: Seq<PathView>,
}

/// The entries of a list as contracts see them.
pub open spec fn path_views(paths: Seq<Path>) -> Seq<PathView>
    decreases paths,
{
    if paths.len() == 0 {
        Seq::empty()
    } else {
        path_views(paths.drop_last()).push(paths.last().view())
    }
}

impl View for Path {
    type V = PathView;

    open spec fn view(&self) -> PathView
        decreases self,
    {
        PathView {
            name: self.name@,
            ptype: self.ptype,
            unfolded: self.unfolded,
            children: path_views(self.children@),
        }
    }
}

/// The views of a list of entries are the views of its entries, one by one.
pub proof fn lemma_path_views(paths: Seq<Path>)
    ensures
        path_views(paths).len() == paths.len(),
        forall|i: int| 0 <= i < paths.len() ==> #[trigger] path_views(paths)[i] == paths[i]@,
    decreases paths.len(),
{
    reveal_with_fuel(path_views, 2);
    if paths.len() > 0 {
        lemma_path_views(paths.drop_last());
        assert(path_views(paths) == path_views(paths.drop_last()).push(paths.last()@));
        assert forall|i: int| 0 <= i < paths.len() implies #[trigger] path_views(paths)[i]
            == paths[i]@ by {
            if i < paths.len() - 1 {
                assert(paths.drop_last()[i] == paths[i]);
            }
        }
    }
}

/// Where one thing comes in an order, seen from another.
#[derive(Clone, Copy, Debug, PartialEq, Eq, Structural)]
pub enum Rank {
    Before,
    Same,
    After,
}

/// The place of a kind of entry among the kinds: links come first, then
/// directories, then files.
pub open spec fn kind_rank(ptype: PathType) -> nat {
    match ptype {
        PathType::SymLink => 0,
        PathType::Directory => 1,
        PathType::File => 2,
        PathType::Unknown => 3,
    }
}

/// Where the name `a` comes seen from the name `b`, character by character
/// as a dictionary has it, the characters in the order of their numbers.
pub open spec fn name_rank(a: Seq<char>, b: Seq<char>) -> Rank
    decreases a.len(),
{
    if a.len() == 0 {
        if b.len() == 0 {
            Rank::Same
        } else {
            Rank::Before
        }
    } else if b.len() == 0 {
        Rank::After
    } else if a[0] == b[0] {
        name_rank(a.skip(1), b.skip(1))
    } else if a[0] < b[0] {
        Rank::Before
    } else {
        Rank::After
    }
}

/// Where the entry `a` comes in a listing seen from the entry `b`: by kind,
/// and among entries of one kind by name. An entry of unknown kind has no
/// place.
pub open spec fn path_rank(a: PathView, b: PathView) -> Option<Rank> {
    if a.ptype == PathType::Unknown || b.ptype == PathType::Unknown {
        None
    } else if kind_rank(a.ptype) < kind_rank(b.ptype) {
        Some(Rank::Before)
    } else if kind_rank(a.ptype) > kind_rank(b.ptype) {
        Some(Rank::After)
    } else {
        Some(name_rank(a.name, b.name))
    }
}

/// Where the name `a` comes seen from the name `b`.
pub fn rank_names(a: &Vec<char>, b: &Vec<char>) -> (r: Rank)
    ensures
        r == name_rank(a@, b@),
{
    let mut i: usize = 0;
    assert(a@.skip(0) =~= a@);
    assert(b@.skip(0) =~= b@);
    while i < a.len() && i < b.len()
        invariant
            i <= a@.len(),
            i <= b@.len(),
            name_rank(a@, b@) == name_rank(a@.skip(i as int), b@.skip(i as int)),
        decreases a@.len() - i,
    {
        if a[i] != b[i] {
            return if a[i] < b[i] {
                Rank::Before
            } else {
                Rank::After
            };
        }
        assert(a@.skip(i as int).skip(1) =~= a@.skip(i + 1));
        assert(b@.skip(i as int).skip(1) =~= b@.skip(i + 1));
        i += 1;
    }
    if i < b.len() {
        Rank::Before
    } else if i < a.len() {
        Rank::After
    } else {
        Rank::Same
    }
}

impl Path {
    /// Where this entry comes in a listing seen from `other`.
    pub fn rank(&self, other: &Path) -> (r: Option<Rank>)
        ensures
            r == path_rank(self@, other@),
    {
        if matches!(self.ptype, PathType::Unknown) || matches!(other.ptype, PathType::Unknown) {
            return None;
        }
        let mine = kind_number(self.ptype);
        let theirs = kind_number(other.ptype);
        if mine < theirs {
            Some(Rank::Before)
        } else if mine > theirs {
            Some(Rank::After)
        } else {
            let a = chars_of(self.name.as_str());
            let b = chars_of(other.name.as_str());
            Some(rank_names(&a, &b))
        }
    }
}

/// Whether `a` may stand before `b` in a listing: both have a place, and `a`
/// does not come after `b`.
pub open spec fn in_order(a: PathView, b: PathView) -> bool {
    path_rank(a, b) matches Some(r) && r != Rank::After
}

/// Whether the entries stand in the order of the listing.
pub open spec fn sorted(paths: Seq<Path>) -> bool {
    forall|i: int, j: int| 0 <= i < j < paths.len() ==> in_order(paths[i]@, paths[j]@)
}

/// Seen from the other side, before is after and the same is the same.
pub proof fn lemma_name_rank_flips(a: Seq<char>, b: Seq<char>)
    ensures
        name_rank(a, b) == Rank::Before <==> name_rank(b, a) == Rank::After,
        name_rank(a, b) == Rank::Same <==> name_rank(b, a) == Rank::Same,
    decreases a.len(),
{
    if a.len() > 0 && b.len() > 0 {
        if a[0] == b[0] {
            lemma_name_rank_flips(a.skip(1), b.skip(1));
        } else {

        }
    }
}

/// What does not come after something that does not come after a third does
/// not come after the third.
pub proof fn lemma_name_rank_chains(a: Seq<char>, b: Seq<char>, c: Seq<char>)
    requires
        name_rank(a, b) != Rank::After,
        name_rank(b, c) != Rank::After,
    ensures
        name_rank(a, c) != Rank::After,
    decreases a.len(),
{
    if a.len() > 0 && b.len() > 0 && c.len() > 0 && a[0] == b[0] && b[0] == c[0] {
        lemma_name_rank_chains(a.skip(1), b.skip(1), c.skip(1));
    }
}

/// The order of the listing is an order: of two entries that have a place,
/// one may stand before the other, and where a first may stand before a
/// second and that before a third, the first may stand before the third.
pub proof fn lemma_in_order(a: PathView, b: PathView, c: PathView)
    requires
        a.ptype != PathType::Unknown,
        b.ptype != PathType::Unknown,
        c.ptype != PathType::Unknown,
    ensures
        in_order(a, b) || in_order(b, a),
        path_rank(a, b) == Some(Rank::After) ==> path_rank(b, a) == Some(Rank::Before),
        in_order(a, b) && in_order(b, c) ==> in_order(a, c),
{
    lemma_name_rank_flips(a.name, b.name);
    lemma_name_rank_flips(b.name, a.name);
    if in_order(a, b) && in_order(b, c) && a.ptype == b.ptype && b.ptype == c.ptype {
        lemma_name_rank_chains(a.name, b.name, c.name);
    }
}

/// Puts the entries of one directory in the order of the listing: links
/// first, then directories, then files, each kind by name. An entry of
/// unknown kind has no place among others.
pub fn sort_paths(paths: &mut Vec<Path>)
    requires
        old(paths)@.len() <= 1 || forall|i: int|
            0 <= i < old(paths)@.len() ==> (#[trigger] old(paths)@[i]).ptype != PathType::Unknown,
    ensures
        sorted(final(paths)@),
        final(paths)@.to_multiset() == old(paths)@.to_multiset(),
{
    let n = paths.len();
    let mut i: usize = 1;
    while i < n
        invariant
            1 <= i,
            paths@.len() == n,
            paths@.to_multiset() == old(paths)@.to_multiset(),
            n > 1 ==> forall|k: int|
                0 <= k < n ==> (#[trigger] paths@[k]).ptype != PathType::Unknown,
            forall|a: int, b: int|
                0 <= a < b < i && b < n ==> in_order(#[trigger] paths@[a]@, #[trigger] paths@[b]@),
        decreases n - i,
    {
        let ghost before = paths@;
        let p = paths.remove(i);
        let ghost rest = paths@;
        let mut j: usize = i;
        while j > 0 && matches!(paths[j - 1].rank(&p), Some(Rank::After))
            invariant
                j <= i,
                i < n,
                paths@ == rest,
                rest.len() == n - 1,
                forall|k: int|
                    j <= k < i ==> path_rank((#[trigger] rest[k])@, p@) == Some(Rank::After),
            decreases j,
        {
            j -= 1;
        }
        paths.insert(j, p);
        proof {
            vstd::seq_lib::to_multiset_remove(before, i as int);
            before.to_multiset_ensures();
            assert(before.contains(p));
            lemma_insert_multiset(rest, j as int, p);
            assert(p.ptype != PathType::Unknown);
            assert forall|k: int| 0 <= k < n implies (#[trigger] paths@[k]).ptype
                != PathType::Unknown by {
                if k < j {
                    assert(paths@[k] == before[k]);
                } else if k == j {
                } else if k <= i {
                    assert(paths@[k] == before[k - 1]);
                } else {
                    assert(paths@[k] == before[k]);
                }
            }
            assert forall|a: int, b: int| 0 <= a < b < i + 1 && b < n implies in_order(
                #[trigger] paths@[a]@,
                #[trigger] paths@[b]@,
            ) by {
                if b < j {
                    assert(paths@[a] == before[a] && paths@[b] == before[b]);
                } else if b == j {
                    // everything before the place of `p` may stand before `p`
                    assert(paths@[a] == before[a]);
                    assert(rest[j - 1] == before[j - 1]);
                    lemma_in_order(before[j - 1]@, p@, p@);
                    if a < j - 1 {
                        lemma_in_order(before[a]@, before[j - 1]@, p@);
                    }
                } else if a == j {
                    // `p` may stand before everything behind its place
                    assert(paths@[b] == rest[b - 1]);
                    lemma_in_order(rest[b - 1]@, p@, p@);
                } else if a < j {
                    assert(paths@[a] == before[a] && paths@[b] == before[b - 1]);
                } else {
                    assert(paths@[a] == before[a - 1] && paths@[b] == before[b - 1]);
                }
            }
        }
        i += 1;
    }
}

/// Putting a value into a sequence adds it to what the sequence holds.
proof fn lemma_insert_multiset<A>(s: Seq<A>, i: int, a: A)
    requires
        0 <= i <= s.len(),
    ensures
        s.insert(i, a).to_multiset() == s.to_multiset().insert(a),
{
    let t = s.insert(i, a);
    vstd::seq_lib::to_multiset_remove(t, i);
    assert(t.remove(i) =~= s);
    t.to_multiset_ensures();
    assert(t.contains(a)) by {
        assert(t[i] == a);
    }
    assert(t.to_multiset() =~= s.to_multiset().insert(a));
}

fn kind_number(ptype: PathType) -> (r: u8)
    ensures
        r == kind_rank(ptype),
{
    match ptype {
        PathType::SymLink => 0,
        PathType::Directory => 1,
        PathType::File => 2,
        PathType::Unknown => 3,
    }
}

/// One row of the listing of the project tree.
pub struct PathMeta {
    /// The names from the root of the tree down to the entry.
    pub path: Vec<String>,
    pub ptype: PathType,
    pub open: bool,
    /// How deep in the tree the entry lies; the entries of the root lie at 0.
    pub depth: usize,
    /// For the root and for each entry on the way down, whether it is the
    /// last of its siblings.
    pub endflags: Vec<bool>,
}

/// A row of the listing as contracts see it.
pub struct PathMetaView {
    pub path: Seq<Seq<char>>,
    pub ptype: PathType,
    pub open: bool,
    pub depth: usize,
    pub endflags: Seq<bool>,
}

impl View for PathMeta {
    type V = PathMetaView;

    open spec fn view(&self) -> PathMetaView {
        PathMetaView {
            path: self.path.deep_view(),
            ptype: self.ptype,
            open: self.open,
            depth: self.depth,
            endflags: self.endflags@,
        }
    }
}

/// The rows of a list as contracts see them.
pub open spec fn metas_of(rows: Seq<PathMeta>) -> Seq<PathMetaView> {
    Seq::new(rows.len(), |i: int| rows[i]@)
}

/// The rows that list the first `upto` of `paths` and what is unfolded below
/// them, `depth` levels down the tree, under the names `above`, where `flags`
/// say of each level above whether it was the last of its siblings.
/// A list without entries is shown as one placeholder row.
pub open spec fn listed(
    paths: Seq<PathView>,
    upto: nat,
    depth: usize,
    above: Seq<Seq<char>>,
    flags: Seq<bool>,
) -> Seq<PathMetaView>
    decreases paths, upto,
{
    if paths.len() == 0 {
        seq![
            PathMetaView {
                path: above.push(Seq::empty()),
                ptype: PathType::Unknown,
                open: false,
                depth,
                endflags: flags.push(true),
            },
        ]
    } else if upto == 0 || upto > paths.len() {
        Seq::empty()
    } else {
        let entry = paths[upto - 1];
        let path = above.push(entry.name);
        let endflags = flags.push(upto == paths.len());
        listed(paths, (upto - 1) as nat, depth, above, flags).push(
            PathMetaView { path, ptype: entry.ptype, open: entry.unfolded, depth, endflags },
        ) + if entry.unfolded {
            listed(entry.children, entry.children.len(), clamped_add(depth, 1), path, endflags)
        } else {
            Seq::empty()
        }
    }
}

/// The rows that list `paths` and what is unfolded below them.
pub open spec fn meta_list(
    paths: Seq<PathView>,
    depth: usize,
    above: Seq<Seq<char>>,
    flags: Seq<bool>,
) -> Seq<PathMetaView> {
    listed(paths, paths.len(), depth, above, flags)
}

/// The place of the first of `paths` that is called `name`.
pub open spec fn first_named(paths: Seq<PathView>, name: Seq<char>) -> Option<int>
    decreases paths.len(),
{
    if paths.len() == 0 {
        None
    } else if paths[0].name == name {
        Some(0)
    } else {
        match first_named(paths.skip(1), name) {
            Some(i) => Some(i + 1),
            None => None,
        }
    }
}

/// The first of `paths` called `name` is the one before which none is called
/// so.
proof fn lemma_first_named(paths: Seq<PathView>, name: Seq<char>, upto: int)
    requires
        0 <= upto <= paths.len(),
        forall|j: int| 0 <= j < upto ==> (#[trigger] paths[j]).name != name,
        upto < paths.len() ==> paths[upto].name == name,
    ensures
        first_named(paths, name) == if upto < paths.len() {
            Some(upto)
        } else {
            None::<int>
        },
    decreases paths.len(),
{
    if paths.len() > 0 && upto > 0 {
        assert(paths[0].name != name);
        assert forall|j: int| 0 <= j < upto - 1 implies (#[trigger] paths.skip(1)[j]).name
            != name by {
            assert(paths.skip(1)[j] == paths[j + 1]);
        }
        lemma_first_named(paths.skip(1), name, upto - 1);
    }
}

/// The tree after the entry at `path` was folded or unfolded. Each name of
/// the path is looked up among the entries below the one before; the first
/// entry of that name counts. A path that leads nowhere changes nothing.
pub open spec fn toggled(paths: Seq<PathView>, path: Seq<Seq<char>>) -> Seq<PathView>
    decreases path.len(),
{
    if path.len() == 0 {
        paths
    } else {
        match first_named(paths, path[0]) {
            Some(i) => if path.len() == 1 {
                paths.update(i, PathView { unfolded: !paths[i].unfolded, ..paths[i] })
            } else {
                paths.update(
                    i,
                    PathView { children: toggled(paths[i].children, path.skip(1)), ..paths[i] },
                )
            },
            None => paths,
        }
    }
}

/// A copy of a list of names.
pub fn clone_names(names: &Vec<String>) -> (r: Vec<String>)
    ensures
        r.deep_view() == names.deep_view(),
{
    let mut out: Vec<String> = Vec::new();
    let mut i: usize = 0;
    while i < names.len()
        invariant
            i <= names@.len(),
            out.deep_view() == names.deep_view().take(i as int),
        decreases names@.len() - i,
    {
        let ghost before = out.deep_view();
        let name = names[i].clone();
        out.push(name);
        assert(out.deep_view() =~= before.push(name@));
        assert(before.push(name@) =~= names.deep_view().take(i + 1));
        i += 1;
    }
    assert(names.deep_view().take(names@.len() as int) =~= names.deep_view());
    out
}

/// A copy of a list of flags.
pub fn clone_flags(flags: &Vec<bool>) -> (r: Vec<bool>)
    ensures
        r@ == flags@,
{
    let mut out: Vec<bool> = Vec::new();
    let mut i: usize = 0;
    while i < flags.len()
        invariant
            i <= flags@.len(),
            out@ == flags@.take(i as int),
        decreases flags@.len() - i,
    {
        out.push(flags[i]);
        assert(out@ =~= flags@.take(i + 1));
        i += 1;
    }
    assert(flags@.take(flags@.len() as int) =~= flags@);
    out
}

/// Appends to `res` the rows that list `paths` and what is unfolded below
/// them. `cur_path` and `endflg_path` say where in the tree the list lies;
/// they are worked on and left as they were.
pub fn generate_meta_list(
    paths: &Vec<Path>,
    res: &mut Vec<PathMeta>,
    depth: usize,
    cur_path: &mut Vec<String>,
    endflg_path: &mut Vec<bool>,
)
    ensures
        metas_of(final(res)@) == metas_of(old(res)@) + meta_list(
            path_views(paths@),
            depth,
            old(cur_path).deep_view(),
            old(endflg_path)@,
        ),
        final(cur_path).deep_view() == old(cur_path).deep_view(),
        final(endflg_path)@ == old(endflg_path)@,
    decreases paths,
{
    let l = paths.len();
    let ghost views = path_views(paths@);
    let ghost above = cur_path.deep_view();
    let ghost flags = endflg_path@;
    let ghost start = metas_of(res@);
    proof {
        lemma_path_views(paths@);
    }
    if l == 0 {
        cur_path.push(String::new());
        endflg_path.push(true);
        assert(cur_path.deep_view() =~= above.push(Seq::empty()));
        let row = PathMeta {
            path: clone_names(cur_path),
            ptype: PathType::Unknown,
            open: false,
            depth,
            endflags: clone_flags(endflg_path),
        };
        res.push(row);
        assert(metas_of(res@) =~= start + meta_list(views, depth, above, flags));
        let _ = cur_path.pop();
        let _ = endflg_path.pop();
        assert(cur_path.deep_view() =~= above);
        assert(endflg_path@ =~= flags);
        return ;
    }
    let mut c: usize = 0;
    assert(start + listed(views, 0, depth, above, flags) =~= start);
    while c < l
        invariant
            l == paths@.len(),
            l > 0,
            c <= l,
            views == path_views(paths@),
            views.len() == l,
            forall|i: int| 0 <= i < l ==> #[trigger] views[i] == paths@[i]@,
            cur_path.deep_view() == above,
            endflg_path@ == flags,
            metas_of(res@) == start + listed(views, c as nat, depth, above, flags),
        decreases l - c,
    {
        let path = &paths[c];
        let ghost entry = views[c as int];
        let ghost sofar = metas_of(res@);
        cur_path.push(path.name.clone());
        endflg_path.push(c + 1 == l);
        assert(cur_path.deep_view() =~= above.push(entry.name));
        let row = PathMeta {
            path: clone_names(cur_path),
            ptype: path.ptype,
            open: path.unfolded,
            depth,
            endflags: clone_flags(endflg_path),
        };
        res.push(row);
        assert(metas_of(res@) =~= sofar.push(row@));
        if path.unfolded {
            generate_meta_list(
                &path.children,
                res,
                depth.saturating_add(1),
                cur_path,
                endflg_path,
            );
        }
        proof {
            let below = if entry.unfolded {
                listed(
                    entry.children,
                    entry.children.len(),
                    clamped_add(depth, 1),
                    above.push(entry.name),
                    flags.push(c + 1 == l),
                )
            } else {
                Seq::empty()
            };
            assert(metas_of(res@) =~= sofar.push(row@) + below);
            assert(listed(views, (c + 1) as nat, depth, above, flags) == listed(
                views,
                c as nat,
                depth,
                above,
                flags,
            ).push(row@) + below);
            assert(start + (listed(views, c as nat, depth, above, flags).push(row@) + below)
                =~= sofar.push(row@) + below);
        }
        let ghost pushed = cur_path.deep_view();
        assert(pushed == above.push(entry.name));
        let _ = cur_path.pop();
        let _ = endflg_path.pop();
        assert(cur_path.deep_view() =~= pushed.drop_last());
        assert(pushed.drop_last() =~= above);
        assert(endflg_path@ =~= flags);
        c += 1;
    }
}

/// Folds or unfolds the entry at `path` below `paths`.
pub fn toggle(paths: &mut Vec<Path>, path: &[String])
    ensures
        path_views(final(paths)@) == toggled(path_views(old(paths)@), path.deep_view()),
    decreases path.len(),
{
    if path.len() == 0 {
        return ;
    }
    let ghost views = path_views(paths@);
    proof {
        lemma_path_views(paths@);
    }
    let mut i: usize = 0;
    while i < paths.len()
        invariant
            i <= paths@.len(),
            *paths == *old(paths),
            path.len() > 0,
            views == path_views(paths@),
            views.len() == paths@.len(),
            forall|k: int| 0 <= k < paths@.len() ==> #[trigger] views[k] == paths@[k]@,
            forall|k: int| 0 <= k < i ==> (#[trigger] views[k]).name != path.deep_view()[0],
        decreases paths@.len() - i,
    {
        if paths[i].name == path[0] {
            proof {
                lemma_first_named(views, path.deep_view()[0], i as int);
            }
            if path.len() == 1 {
                let b = paths[i].unfolded;
                paths[i].unfolded = !b;
            } else {
                let rest = slice_subrange(path, 1, path.len());
                proof {
                    assert(rest.deep_view() =~= path.deep_view().skip(1));
                }
                toggle(&mut paths[i].children, rest);
            }
            proof {
                lemma_path_views(paths@);
                assert(path_views(paths@) =~= toggled(views, path.deep_view()));
            }
            return ;
        }
        i += 1;
    }
    proof {
        lemma_first_named(views, path.deep_view()[0], paths@.len() as int);
    }
}

/// The project tree: its entries, and which part of its listing is shown.
pub struct Filesystem {
    root: String,
    path_cache: Vec<Path>,
    showing_start: usize,
    last_max: usize,
}

/// A project tree as contracts see it.
pub struct FilesystemView {
    /// The path of the project's directory.
    pub root: Seq<char>,
    pub path_cache: Seq<PathView>,
    /// The row of the listing that is shown first.
    pub showing_start: usize,
    /// How many rows the listing had from the first shown one on, when it was
    /// last asked for.
    pub last_max: usize,
}

impl View for Filesystem {
    type V = FilesystemView;

    closed spec fn view(&self) -> FilesystemView {
        FilesystemView {
            root: self.root@,
            path_cache: path_views(self.path_cache@),
            showing_start: self.showing_start,
            last_max: self.last_max,
        }
    }
}

impl FilesystemView {
    /// The whole listing of the tree.
    pub open spec fn listing(self) -> Seq<PathMetaView> {
        meta_list(self.path_cache, 0, Seq::empty(), Seq::empty())
    }

    /// How many rows the listing has from the first shown one on.
    pub open spec fn remaining(self) -> nat {
        if self.showing_start <= self.listing().len() {
            (self.listing().len() - self.showing_start) as nat
        } else {
            0
        }
    }

    /// The rows of the listing that are shown where there is room for `max`
    /// rows.
    pub open spec fn page(self, max: usize) -> Seq<PathMetaView> {
        let from = self.listing().len() - self.remaining();
        let count = if max <= self.remaining() {
            max as nat
        } else {
            self.remaining()
        };
        self.listing().subrange(from, from + count)
    }
}

impl Filesystem {
    /// The tree of the project at `root`, with the entries `entries`, shown
    /// from its first row on.
    pub fn new(root: String, entries: Vec<Path>) -> (r: Filesystem)
        ensures
            r@ == (FilesystemView {
                root: root@,
                path_cache: path_views(entries@),
                showing_start: 0,
                last_max: 0,
            }),
    {
        Filesystem { root, path_cache: entries, showing_start: 0, last_max: 0 }
    }

    /// The row of the listing that is shown first.
    pub fn get_showing_start(&self) -> (r: usize)
        ensures
            r == self@.showing_start,
    {
        self.showing_start
    }

    /// How many rows the listing had from the first shown one on, when it was
    /// last asked for.
    pub fn get_last_max(&self) -> (r: usize)
        ensures
            r == self@.last_max,
    {
        self.last_max
    }

    /// The entries directly below the root.
    pub fn get_entries(&self) -> (r: &Vec<Path>)
        ensures
            path_views(r@) == self@.path_cache,
    {
        &self.path_cache
    }

    /// Folds or unfolds the entry at `path`.
    pub fn fold_unfold(&mut self, path: &[String])
        ensures
            final(self)@ == (FilesystemView {
                path_cache: toggled(old(self)@.path_cache, path.deep_view()),
                ..old(self)@
            }),
    {
        toggle(&mut self.path_cache, path);
    }

    /// The rows of the listing that are shown where there is room for `max`
    /// rows. Remembers how many rows there were to show.
    pub fn iter(&mut self, max: usize) -> (r: Vec<PathMeta>)
        ensures
            metas_of(r@) == old(self)@.page(max),
            final(self)@ == (FilesystemView {
                last_max: old(self)@.remaining() as usize,
                ..old(self)@
            }),
            old(self)@.remaining() <= usize::MAX,
    {
        let mut all: Vec<PathMeta> = Vec::new();
        let mut cur_path: Vec<String> = Vec::new();
        let mut endflg_path: Vec<bool> = Vec::new();
        assert(cur_path.deep_view() =~= Seq::<Seq<char>>::empty());
        generate_meta_list(&self.path_cache, &mut all, 0, &mut cur_path, &mut endflg_path);
        assert(metas_of(all@) =~= self@.listing());
        let len = all.len();
        let from = if self.showing_start <= len {
            self.showing_start
        } else {
            len
        };
        self.last_max = len - from;
        let count = if max <= len - from {
            max
        } else {
            len - from
        };
        let mut res: Vec<PathMeta> = Vec::new();
        let mut k: usize = 0;
        while k < count
            invariant
                k <= count,
                from + count <= len,
                len == all@.len(),
                metas_of(res@) == metas_of(all@).subrange(from as int, from + k),
            decreases count - k,
        {
            let row = PathMeta {
                path: clone_names(&all[from + k].path),
                ptype: all[from + k].ptype,
                open: all[from + k].open,
                depth: all[from + k].depth,
                endflags: clone_flags(&all[from + k].endflags),
            };
            let ghost before = metas_of(res@);
            res.push(row);
            assert(metas_of(res@) =~= before.push(row@));
            assert(before.push(row@) =~= metas_of(all@).subrange(from as int, from + k + 1));
            k += 1;
        }
        res
    }
}

/// The place in `stack` of the first buffer that holds the file at `path`.
pub open spec fn first_open(
    stack: Seq<EditingHandle>,
    files: Seq<EditingView>,
    path: Seq<Seq<char>>,
) -> Option<int>
    decreases stack.len(),
{
    if stack.len() == 0 {
        None
    } else if stack[0].index < files.len() && files[stack[0].index as int].path == path {
        Some(0)
    } else {
        match first_open(stack.skip(1), files, path) {
            Some(i) => Some(i + 1),
            None => None,
        }
    }
}

/// The first buffer of `stack` for `path` is the one before which none is
/// for it.
proof fn lemma_first_open(
    stack: Seq<EditingHandle>,
    files: Seq<EditingView>,
    path: Seq<Seq<char>>,
    upto: int,
)
    requires
        0 <= upto <= stack.len(),
        forall|j: int|
            0 <= j < upto ==> !((#[trigger] stack[j]).index < files.len() && files[stack[j].index as int].path
                == path),
        upto < stack.len() ==> stack[upto].index < files.len() && files[stack[upto].index as int].path
            == path,
    ensures
        first_open(stack, files, path) == if upto < stack.len() {
            Some(upto)
        } else {
            None::<int>
        },
    decreases stack.len(),
{
    if stack.len() > 0 && upto > 0 {
        assert(!(stack[0].index < files.len() && files[stack[0].index as int].path == path));
        assert forall|j: int| 0 <= j < upto - 1 implies !((#[trigger] stack.skip(1)[j]).index
            < files.len() && files[stack.skip(1)[j].index as int].path == path) by {
            assert(stack.skip(1)[j] == stack[j + 1]);
        }
        lemma_first_open(stack.skip(1), files, path, upto - 1);
    }
}

/// Whether two lists hold the same names.
pub fn same_names(a: &Vec<String>, b: &Vec<String>) -> (r: bool)
    ensures
        r == (a.deep_view() == b.deep_view()),
{
    if a.len() != b.len() {
        assert(a.deep_view().len() != b.deep_view().len());
        return false;
    }
    let mut i: usize = 0;
    while i < a.len()
        invariant
            i <= a@.len(),
            a@.len() == b@.len(),
            forall|k: int| 0 <= k < i ==> a.deep_view()[k] == b.deep_view()[k],
        decreases a@.len() - i,
    {
        if !(a[i] == b[i]) {
            assert(a.deep_view()[i as int] != b.deep_view()[i as int]);
            return false;
        }
        i += 1;
    }
    assert(a.deep_view() =~= b.deep_view());
    true
}

/// The pane that shows the project tree. It also keeps the buffers of the
/// files that were opened from it, the one opened last at the end.
pub struct ProjectViewer {
    path: String,
    at_line: usize,
    fs: Filesystem,
    editor_stack: Vec<EditingHandle>,
    file_open_sender: [SenderHandle; 2],
    move_focus_sender: SenderHandle,
}

/// A project viewer as contracts see it.
pub struct ProjectViewerView {
    /// The path of the project's directory.
    pub path: Seq<char>,
    /// The selected row of the shown part of the listing.
    pub at_line: usize,
    pub fs: FilesystemView,
    /// The buffers of the files opened so far, the one opened last at the end.
    pub editor_stack: Seq<EditingHandle>,
    /// Where the file to show goes, and where the file shown before goes.
    pub file_open_sender: (SenderHandle, SenderHandle),
    /// Where the request to focus the editor goes.
    pub move_focus_sender: SenderHandle,
}

impl View for ProjectViewer {
    type V = ProjectViewerView;

    closed spec fn view(&self) -> ProjectViewerView {
        ProjectViewerView {
            path: self.path@,
            at_line: self.at_line,
            fs: self.fs@,
            editor_stack: self.editor_stack@,
            file_open_sender: (self.file_open_sender@[0], self.file_open_sender@[1]),
            move_focus_sender: self.move_focus_sender,
        }
    }
}

/// What a step of the project viewer leaves behind.
pub struct ViewerStep {
    pub viewer: ProjectViewerView,
    pub boxes: Seq<Mailbox>,
    pub files: Seq<EditingView>,
}

/// What opening a file did.
#[derive(Clone, Copy, Debug)]
pub struct HandOff {
    /// The buffer of the opened file.
    pub buffer: EditingHandle,
    /// Whether the buffer was made for this, and waits for the file's text.
    pub fresh: bool,
    /// Whether the buffer shown before went to the second editor. It did not
    /// where that mailbox was full; nothing had to go where no file was open.
    pub evicted: Result<(), MailboxError>,
    /// Whether the buffer went to the first editor.
    pub shown: Result<(), MailboxError>,
    /// Whether the request to focus the editor went out.
    pub focus: Result<(), MailboxError>,
}

/// The strokes that lead from the left edge to an entry of the tree, for the
/// level `level` of the levels above it: the branch to the entry itself at
/// the last level, and before that a bar where the tree goes on below.
pub open spec fn branch(meta: PathMetaView, level: nat) -> Seq<char> {
    if level + 1 == meta.depth {
        let last = meta.endflags.len() > 0 && meta.endflags.last();
        if meta.ptype == PathType::Directory {
            if last {
                "┕━"@
            } else {
                "┝━"@
            }
        } else {
            if last {
                "╰─"@
            } else {
                "├─"@
            }
        }
    } else {
        if level + 1 < meta.endflags.len() && meta.endflags[level as int + 1] {
            "  "@
        } else {
            "│ "@
        }
    }
}

/// The strokes for the first `upto` levels above an entry.
pub open spec fn branches(meta: PathMetaView, upto: nat) -> Seq<char>
    decreases upto,
{
    if upto == 0 {
        Seq::empty()
    } else {
        branches(meta, (upto - 1) as nat) + branch(meta, (upto - 1) as nat)
    }
}

/// The mark before the name of an entry: what it is, and for a directory
/// whether it is unfolded.
pub open spec fn marker(meta: PathMetaView) -> Seq<char> {
    if meta.ptype == PathType::Directory {
        if meta.open {
            "┭ "@
        } else {
            "╾ "@
        }
    } else if meta.ptype == PathType::Unknown {
        "──"@
    } else {
        "─ "@
    }
}

/// The text of a row of the listing.
pub open spec fn entry_text(meta: PathMetaView) -> Seq<char> {
    branches(meta, meta.depth as nat) + marker(meta) + (if meta.path.len() > 0 {
        meta.path.last()
    } else {
        Seq::empty()
    })
}

/// What drawing the rows `rows` of the listing below the title adds to a
/// frame, the row `at_line` being selected.
pub open spec fn entry_rows(renderer: Renderer, rows: Seq<PathMetaView>, at_line: usize) -> Seq<
    Drawn,
>
    decreases rows.len(),
{
    if rows.len() == 0 {
        Seq::empty()
    } else {
        entry_rows(renderer, rows.drop_last(), at_line) + renderer.written(
            0,
            rows.len() as usize,
            fitted(entry_text(rows.last()), renderer.size().0 as nat),
            entry_style(rows.len() - 1 == at_line),
        )
    }
}

/// The last of the pieces of a path.
pub open spec fn last_piece(path: Seq<char>) -> Seq<char> {
    if pieces(path).len() > 0 {
        pieces(path).last()
    } else {
        Seq::empty()
    }
}

impl ProjectViewerView {
    /// The viewer after its pane got `height` rows: the selection stays
    /// inside the rows below the title, and the listing scrolls by as much as
    /// the selection had to move up.
    pub open spec fn resized(self, height: usize) -> ProjectViewerView {
        if height > 1 && self.at_line >= height - 1 {
            ProjectViewerView {
                fs: FilesystemView {
                    showing_start: clamped_add(
                        self.fs.showing_start,
                        (self.at_line + 2 - height) as usize,
                    ),
                    ..self.fs
                },
                at_line: (height - 2) as usize,
                ..self
            }
        } else {
            self
        }
    }

    /// The viewer after the up key: the selection goes up a row, and from the
    /// first row on the listing scrolls.
    pub open spec fn moved_up(self) -> ProjectViewerView {
        if self.at_line > 0 {
            ProjectViewerView { at_line: (self.at_line - 1) as usize, ..self }
        } else if self.fs.showing_start > 0 {
            ProjectViewerView {
                fs: FilesystemView {
                    showing_start: (self.fs.showing_start - 1) as usize,
                    ..self.fs
                },
                ..self
            }
        } else {
            self
        }
    }

    /// The viewer after its listing was asked for: it remembers how many rows
    /// there were to show.
    pub open spec fn asked(self) -> ProjectViewerView {
        ProjectViewerView {
            fs: FilesystemView { last_max: self.fs.remaining() as usize, ..self.fs },
            ..self
        }
    }

    /// The viewer after the down key in a pane of `height` rows: the
    /// selection goes down a row as far as there are rows shown, and from the
    /// last row on the listing scrolls as far as it goes on.
    pub open spec fn moved_down(self, height: usize) -> ProjectViewerView {
        let page = self.fs.page(clamped_sub(height, 1));
        let asked = self.asked();
        let last_row = clamped_sub(page.len() as usize, 1);
        let limit = if clamped_sub(height, 2) <= last_row {
            clamped_sub(height, 2)
        } else {
            last_row
        };
        if self.at_line < limit {
            ProjectViewerView { at_line: (self.at_line + 1) as usize, ..asked }
        } else if clamped_sub(height, 1) < asked.fs.last_max {
            ProjectViewerView {
                fs: FilesystemView {
                    showing_start: clamped_add(asked.fs.showing_start, 1),
                    ..asked.fs
                },
                ..asked
            }
        } else {
            asked
        }
    }

    /// What opening the file at `file_path` leaves behind.
    ///
    /// The buffer of the file is the first of the opened ones that holds it,
    /// taken out of their list, or a new one. The buffer opened last before,
    /// if there is one, goes to the second editor, and the buffer of the
    /// file goes to the end of the list and to the first editor. Then the
    /// editor is asked to take the focus. A mailbox that is full does not
    /// take what is sent to it, and keeps what it has.
    pub open spec fn handed_off(
        self,
        file_path: Seq<Seq<char>>,
        boxes: Seq<Mailbox>,
        files: Seq<EditingView>,
    ) -> ViewerStep {
        let found = first_open(self.editor_stack, files, file_path);
        let chosen = match found {
            Some(i) => self.editor_stack[i],
            None => EditingHandle { index: files.len() as usize },
        };
        let rest = match found {
            Some(i) => self.editor_stack.remove(i),
            None => self.editor_stack,
        };
        let evicted = if rest.len() > 0 {
            posted(boxes, self.file_open_sender.1.index as int, PipeObject::Editing(rest.last()))
        } else {
            boxes
        };
        let shown = posted(evicted, self.file_open_sender.0.index as int, PipeObject::Editing(chosen));
        ViewerStep {
            viewer: ProjectViewerView { editor_stack: rest.push(chosen), ..self },
            boxes: posted(shown, self.move_focus_sender.index as int, PipeObject::MoveFocus),
            files: match found {
                Some(i) => files,
                None => files.push(EditingView::fresh(file_path)),
            },
        }
    }

    /// What opening the file at `file_path` reports: the buffer of the file,
    /// whether it is new, and for each of the three messages whether its
    /// mailbox took it.
    pub open spec fn reported(
        self,
        file_path: Seq<Seq<char>>,
        boxes: Seq<Mailbox>,
        files: Seq<EditingView>,
    ) -> HandOff {
        let found = first_open(self.editor_stack, files, file_path);
        let chosen = match found {
            Some(i) => self.editor_stack[i],
            None => EditingHandle { index: files.len() as usize },
        };
        let rest = match found {
            Some(i) => self.editor_stack.remove(i),
            None => self.editor_stack,
        };
        let evicted = if rest.len() > 0 {
            posted(boxes, self.file_open_sender.1.index as int, PipeObject::Editing(rest.last()))
        } else {
            boxes
        };
        let shown = posted(evicted, self.file_open_sender.0.index as int, PipeObject::Editing(chosen));
        HandOff {
            buffer: chosen,
            fresh: found is None,
            evicted: if rest.len() > 0 {
                send_outcome(boxes, self.file_open_sender.1.index as int)
            } else {
                Ok(())
            },
            shown: send_outcome(evicted, self.file_open_sender.0.index as int),
            focus: send_outcome(shown, self.move_focus_sender.index as int),
        }
    }

    /// What the enter key leaves behind in a pane of `height` rows: the
    /// selected directory is folded or unfolded, any other selected entry is
    /// opened as a file of the project.
    pub open spec fn entered(self, height: usize, boxes: Seq<Mailbox>, files: Seq<EditingView>) -> ViewerStep {
        let page = self.fs.page(clamped_sub(height, 1));
        let asked = self.asked();
        if self.at_line < page.len() {
            let meta = page[self.at_line as int];
            if meta.ptype == PathType::Directory {
                ViewerStep {
                    viewer: ProjectViewerView {
                        fs: FilesystemView {
                            path_cache: toggled(asked.fs.path_cache, meta.path),
                            ..asked.fs
                        },
                        ..asked
                    },
                    boxes,
                    files,
                }
            } else {
                asked.handed_off(pieces(self.path) + meta.path, boxes, files)
            }
        } else {
            ViewerStep { viewer: asked, boxes, files }
        }
    }

    /// What `event` leaves behind where it arrives at the pane, `contsize`
    /// large. A key pressed or held without modifiers counts, and a new size.
    pub open spec fn handled(
        self,
        event: InputEvent,
        contsize: (usize, usize),
        boxes: Seq<Mailbox>,
        files: Seq<EditingView>,
    ) -> ViewerStep {
        match event {
            InputEvent::Key(key) => if key.modifiers.is_none() && key.kind != KeyEventKind::Release
                && key.state.is_none() {
                match key.code {
                    KeyCode::Up => ViewerStep { viewer: self.moved_up(), boxes, files },
                    KeyCode::Down => ViewerStep {
                        viewer: self.moved_down(contsize.1),
                        boxes,
                        files,
                    },
                    KeyCode::Enter => self.entered(contsize.1, boxes, files),
                    _ => ViewerStep { viewer: self, boxes, files },
                }
            } else {
                ViewerStep { viewer: self, boxes, files }
            },
            InputEvent::Resize(_, _) => ViewerStep {
                viewer: self.resized(contsize.1),
                boxes,
                files,
            },
            _ => ViewerStep { viewer: self, boxes, files },
        }
    }

    /// The title of the pane in a pane `size` large: the name of the
    /// project's directory, in a row as wide as the pane, or as long as the
    /// pane is high where the pane is one column wide.
    pub open spec fn title(self, size: (usize, usize)) -> Seq<char> {
        fitted(
            last_piece(self.path),
            if size.0 == 1 {
                size.1 as nat
            } else {
                size.0 as nat
            },
        )
    }

    /// What a frame adds to the screen. Unfocused, the pane shows its title,
    /// written downwards behind a label where the pane is one column wide.
    /// Focused, it shows the title, the shown rows of the listing, and blank
    /// rows below them.
    pub open spec fn drawn(self, renderer: Renderer, focused: bool) -> Seq<Drawn> {
        let size = renderer.size();
        if !focused {
            if size.0 == 1 {
                renderer.column_written("ProjViewer | "@ + self.title(size), title_style(false))
            } else {
                renderer.written(0, 0, self.title(size), title_style(false))
            }
        } else {
            let page = self.fs.page(clamped_sub(size.1, 1));
            renderer.written(0, 0, self.title(size), title_style(true)) + entry_rows(
                renderer,
                page,
                self.at_line,
            ) + renderer.rows_cleared(clamped_add(page.len() as usize, 1), size.1, cleared_style())
        }
    }

    /// The viewer after a frame: focused, it has asked for its listing.
    pub open spec fn rendered(self, renderer: Renderer, focused: bool) -> ProjectViewerView {
        if focused {
            self.asked()
        } else {
            self
        }
    }
}

/// The characters of the text of a row of the listing.
pub fn entry_chars(meta: &PathMeta) -> (r: Vec<char>)
    ensures
        r@ == entry_text(meta@),
{
    let mut s: Vec<char> = Vec::new();
    let mut i: usize = 0;
    let flags = meta.endflags.len();
    let last = flags > 0 && meta.endflags[flags - 1];
    while i < meta.depth
        invariant
            i <= meta.depth,
            flags == meta.endflags@.len(),
            last == (meta@.endflags.len() > 0 && meta@.endflags.last()),
            s@ == branches(meta@, i as nat),
        decreases meta.depth - i,
    {
        let piece = if i == meta.depth - 1 {
            if meta.ptype == PathType::Directory {
                if last {
                    chars_of("┕━")
                } else {
                    chars_of("┝━")
                }
            } else {
                if last {
                    chars_of("╰─")
                } else {
                    chars_of("├─")
                }
            }
        } else {
            if i + 1 < flags && meta.endflags[i + 1] {
                chars_of("  ")
            } else {
                chars_of("│ ")
            }
        };
        assert(piece@ == branch(meta@, i as nat));
        append_chars(&mut s, &piece);
        i += 1;
    }
    let mark = if meta.ptype == PathType::Directory {
        if meta.open {
            chars_of("┭ ")
        } else {
            chars_of("╾ ")
        }
    } else if meta.ptype == PathType::Unknown {
        chars_of("──")
    } else {
        chars_of("─ ")
    };
    append_chars(&mut s, &mark);
    if meta.path.len() > 0 {
        let name = chars_of(meta.path[meta.path.len() - 1].as_str());
        assert(name@ == meta@.path.last());
        append_chars(&mut s, &name);
    } else {
        assert(s@ + Seq::<char>::empty() =~= s@);
    }
    s
}

/// Draws the rows `rows` of the listing below the title.
pub fn draw_entries(renderer: &Renderer, rows: &Vec<PathMeta>, at_line: usize, screen: &mut Screen)
    ensures
        final(screen)@ == old(screen)@ + entry_rows(*renderer, metas_of(rows@), at_line),
{
    let width = renderer.get_size().0;
    let mut k: usize = 0;
    assert(screen@ + entry_rows(*renderer, metas_of(rows@).take(0), at_line) =~= screen@);
    while k < rows.len()
        invariant
            k <= rows@.len(),
            width == renderer.size().0,
            screen@ == old(screen)@ + entry_rows(
                *renderer,
                metas_of(rows@).take(k as int),
                at_line,
            ),
        decreases rows@.len() - k,
    {
        let text = fit(entry_chars(&rows[k]), width);
        renderer.set_section(0, k + 1, text, Style::entry(k == at_line), screen);
        proof {
            let next = metas_of(rows@).take(k + 1);
            assert(next.drop_last() =~= metas_of(rows@).take(k as int));
            assert(next.last() == rows@[k as int]@);
            assert(screen@ =~= old(screen)@ + entry_rows(*renderer, next, at_line));
        }
        k += 1;
    }
    assert(metas_of(rows@).take(rows@.len() as int) =~= metas_of(rows@));
}

impl ProjectViewer {
    /// The viewer of the project at `path` with the entries `entries`. It
    /// sends files to the mailboxes `FileOpen0` and `FileOpen1` and asks for
    /// the focus in `MoveFocusToEditor`; these are made where they are not
    /// there yet.
    pub fn new(path: String, entries: Vec<Path>, pipes: &mut NamedPipe) -> (r: ProjectViewer)
        requires
            old(pipes).wf(),
        ensures
            final(pipes).wf(),
            final(pipes)@ == opened(
                opened(opened(old(pipes)@, "FileOpen0"@), "FileOpen1"@),
                "MoveFocusToEditor"@,
            ),
            r@.path == path@,
            r@.at_line == 0,
            r@.fs == (FilesystemView {
                root: path@,
                path_cache: path_views(entries@),
                showing_start: 0,
                last_max: 0,
            }),
            r@.editor_stack == Seq::<EditingHandle>::empty(),
            r@.file_open_sender.0.index < final(pipes)@.len(),
            r@.file_open_sender.1.index < final(pipes)@.len(),
            r@.move_focus_sender.index < final(pipes)@.len(),
            final(pipes)@[r@.file_open_sender.0.index as int].name == "FileOpen0"@,
            final(pipes)@[r@.file_open_sender.1.index as int].name == "FileOpen1"@,
            final(pipes)@[r@.move_focus_sender.index as int].name == "MoveFocusToEditor"@,
    {
        let first = pipes.open_sender("FileOpen0".to_owned());
        let second = pipes.open_sender("FileOpen1".to_owned());
        let focus = pipes.open_sender("MoveFocusToEditor".to_owned());
        ProjectViewer {
            path: path.clone(),
            at_line: 0,
            fs: Filesystem::new(path, entries),
            editor_stack: Vec::new(),
            file_open_sender: [first, second],
            move_focus_sender: focus,
        }
    }

    /// The selected row of the shown part of the listing.
    pub fn get_at_line(&self) -> (r: usize)
        ensures
            r == self@.at_line,
    {
        self.at_line
    }

    /// The project tree.
    pub fn get_filesystem(&self) -> (r: &Filesystem)
        ensures
            r@ == self@.fs,
    {
        &self.fs
    }

    /// The buffers of the files opened so far, the one opened last at the end.
    pub fn get_editor_stack(&self) -> (r: &Vec<EditingHandle>)
        ensures
            r@ == self@.editor_stack,
    {
        &self.editor_stack
    }

    /// Where the file to show goes, and where the file shown before goes.
    pub fn get_file_open_sender(&self) -> (r: [SenderHandle; 2])
        ensures
            (r@[0], r@[1]) == self@.file_open_sender,
    {
        self.file_open_sender
    }

    /// Where the request to focus the editor goes.
    pub fn get_move_focus_sender(&self) -> (r: SenderHandle)
        ensures
            r == self@.move_focus_sender,
    {
        self.move_focus_sender
    }

    /// Binds the viewer to a new, focused leaf `ProjectViewer` in the work
    /// area of the tree. Where the tree takes the leaf, the viewer joins the
    /// views.
    pub fn bind_to(self, framework: &mut Framework, views: &mut Components) -> (r: Result<
        (),
        InsertError,
    >)
        ensures
            r == match old(framework)@.bind_error("/WorkArea"@) {
                Some(e) => Err::<(), InsertError>(e),
                None => Ok::<(), InsertError>(()),
            },
            final(views).wf() == old(views).wf(),
            r is Err ==> final(framework)@ == old(framework)@ && final(views)@ == old(views)@,
            r is Ok ==> old(framework)@.gained(
                final(framework)@,
                "/WorkArea"@,
                "ProjectViewer"@,
                ContainerType::ProjectViewer(old(views)@.viewers.len() as usize),
                true,
            ) && final(views)@ == if old(framework)@.tree is Some {
                ComponentsView { viewers: old(views)@.viewers.push(self@), ..old(views)@ }
            } else {
                old(views)@
            },
    {
        let kind = ContainerType::ProjectViewer(views.viewers.len());
        let container = Container::with_type("ProjectViewer", kind, true);
        let bound = framework.has_container();
        match framework.add_container("/WorkArea", container) {
            Ok(()) => {
                if bound {
                    views.viewers.push(self);
                    assert(views@.viewers =~= old(views)@.viewers.push(self@));
                    assert(views@.terminals =~= old(views)@.terminals);
                }
                Ok(())
            },
            Err(e) => Err(e),
        }
    }

    /// Opens the file at `file_path` and hands its buffer to the editors.
    pub fn open_file(&mut self, file_path: Vec<String>, pipes: &mut NamedPipe, files: &mut Buffers) -> (r:
        HandOff)
        requires
            old(pipes).wf(),
        ensures
            final(pipes).wf(),
            ({
                let step = old(self)@.handed_off(file_path.deep_view(), old(pipes)@, old(files)@);
                &&& final(self)@ == step.viewer
                &&& final(pipes)@ == step.boxes
                &&& final(files)@ == step.files
            }),
            r == old(self)@.reported(file_path.deep_view(), old(pipes)@, old(files)@),
    {
        let ghost stack = self.editor_stack@;
        let ghost path = file_path.deep_view();
        let mut i: usize = 0;
        let mut found: Option<usize> = None;
        proof {
            if stack.len() == 0 {
                lemma_first_open(stack, files@, path, 0);
            }
        }
        while i < self.editor_stack.len()
            invariant_except_break
                i <= self.editor_stack@.len(),
                found is None,
                i == stack.len() ==> first_open(stack, files@, path) is None,
                forall|j: int|
                    0 <= j < i ==> !((#[trigger] stack[j]).index < files@.len() && files@[stack[j].index as int].path
                        == path),
            invariant
                *self == *old(self),
                *files == *old(files),
                stack == self.editor_stack@,
                path == file_path.deep_view(),
            ensures
                first_open(stack, files@, path) == match found {
                    Some(k) => Some(k as int),
                    None => None::<int>,
                },
                found matches Some(k) ==> k < stack.len(),
            decreases self.editor_stack@.len() - i,
        {
            let held = match files.get(self.editor_stack[i]) {
                Some(f) => same_names(f.path(), &file_path),
                None => false,
            };
            if held {
                proof {
                    lemma_first_open(stack, files@, path, i as int);
                }
                found = Some(i);
                break ;
            }
            i += 1;
            proof {
                if i == stack.len() {
                    lemma_first_open(stack, files@, path, i as int);
                }
            }
        }
        let fresh = found.is_none();
        let chosen = match found {
            Some(k) => self.editor_stack.remove(k),
            None => files.add(Editing::new(file_path)),
        };
        let evicted = if self.editor_stack.len() > 0 {
            let last = self.editor_stack[self.editor_stack.len() - 1];
            pipes.try_send(self.file_open_sender[1], PipeObject::Editing(last))
        } else {
            Ok(())
        };
        self.editor_stack.push(chosen);
        let shown = pipes.try_send(self.file_open_sender[0], PipeObject::Editing(chosen));
        let focus = pipes.try_send(self.move_focus_sender, PipeObject::MoveFocus);
        HandOff { buffer: chosen, fresh, evicted, shown, focus }
    }

    /// Takes an input event for the pane, which is `contsize` large.
    pub fn handle(
        &mut self,
        event: InputEvent,
        contsize: (usize, usize),
        pipes: &mut NamedPipe,
        files: &mut Buffers,
    )
        requires
            old(pipes).wf(),
        ensures
            final(pipes).wf(),
            ({
                let step = old(self)@.handled(event, contsize, old(pipes)@, old(files)@);
                &&& final(self)@ == step.viewer
                &&& final(pipes)@ == step.boxes
                &&& final(files)@ == step.files
            }),
    {
        match event {
            InputEvent::Key(key) => {
                let counts = key.modifiers.is_empty() && !matches!(key.kind, KeyEventKind::Release)
                    && key.state.is_empty();
                if counts {
                    match key.code {
                        KeyCode::Up => {
                            self.line_up();
                        },
                        KeyCode::Down => {
                            self.line_down(contsize.1);
                        },
                        KeyCode::Enter => {
                            self.enter(contsize.1, pipes, files);
                        },
                        _ => {},
                    }
                }
            },
            InputEvent::Resize(_, _) => {
                self.on_resize(contsize.1);
            },
            _ => {},
        }
    }

    /// The up key.
    pub fn line_up(&mut self)
        ensures
            final(self)@ == old(self)@.moved_up(),
    {
        if self.at_line > 0 {
            self.at_line -= 1;
        } else if self.fs.showing_start > 0 {
            self.fs.showing_start -= 1;
        }
    }

    /// The down key in a pane of `height` rows.
    pub fn line_down(&mut self, height: usize)
        ensures
            final(self)@ == old(self)@.moved_down(height),
    {
        let shown = self.fs.iter(height.saturating_sub(1)).len();
        let last_row = shown.saturating_sub(1);
        let limit = if height.saturating_sub(2) <= last_row {
            height.saturating_sub(2)
        } else {
            last_row
        };
        if self.at_line < limit {
            self.at_line += 1;
        } else if height.saturating_sub(1) < self.fs.last_max {
            self.fs.showing_start = self.fs.showing_start.saturating_add(1);
        }
    }

    /// The enter key in a pane of `height` rows.
    pub fn enter(&mut self, height: usize, pipes: &mut NamedPipe, files: &mut Buffers)
        requires
            old(pipes).wf(),
        ensures
            final(pipes).wf(),
            ({
                let step = old(self)@.entered(height, old(pipes)@, old(files)@);
                &&& final(self)@ == step.viewer
                &&& final(pipes)@ == step.boxes
                &&& final(files)@ == step.files
            }),
    {
        let content = self.fs.iter(height.saturating_sub(1));
        if self.at_line < content.len() {
            let meta = &content[self.at_line];
            if meta.ptype == PathType::Directory {
                self.fs.fold_unfold(meta.path.as_slice());
            } else {
                let mut file_path = split_all(self.path.as_str());
                let ghost head = file_path.deep_view();
                let mut k: usize = 0;
                assert(file_path.deep_view() =~= head + meta.path.deep_view().take(0));
                while k < meta.path.len()
                    invariant
                        k <= meta.path@.len(),
                        file_path.deep_view() == head + meta.path.deep_view().take(k as int),
                    decreases meta.path@.len() - k,
                {
                    let ghost before = file_path.deep_view();
                    let name = meta.path[k].clone();
                    file_path.push(name);
                    assert(file_path.deep_view() =~= before.push(name@));
                    assert(before.push(name@) =~= head + meta.path.deep_view().take(k + 1));
                    k += 1;
                }
                assert(meta.path.deep_view().take(meta.path@.len() as int)
                    =~= meta.path.deep_view());
                let _ = self.open_file(file_path, pipes, files);
            }
        }
    }

    /// Reacts to a new pane height.
    pub fn on_resize(&mut self, height: usize)
        ensures
            final(self)@ == old(self)@.resized(height),
    {
        if height > 1 && self.at_line >= height - 1 {
            let shift: usize = self.at_line - (height - 2);
            self.fs.showing_start = self.fs.showing_start.saturating_add(shift);
            self.at_line = height - 2;
        }
    }

    /// The characters of the pane's title.
    fn title_text(&self, size: (usize, usize)) -> (r: Vec<char>)
        ensures
            r@ == self@.title(size),
    {
        let parts = split_all(self.path.as_str());
        let name = if parts.len() > 0 {
            let name = chars_of(parts[parts.len() - 1].as_str());
            assert(name@ == parts.deep_view().last());
            name
        } else {
            Vec::new()
        };
        fit(
            name,
            if size.0 == 1 {
                size.1
            } else {
                size.0
            },
        )
    }

    /// Draws a frame of the pane into `renderer`. The pane shows no cursor.
    pub fn render(&mut self, renderer: &Renderer, focused: bool, screen: &mut Screen) -> (r: (
        bool,
        (usize, usize),
    ))
        ensures
            final(self)@ == old(self)@.rendered(*renderer, focused),
            final(screen)@ == old(screen)@ + old(self)@.drawn(*renderer, focused),
            r == (false, (0usize, 0usize)),
    {
        let size = renderer.get_size();
        let title = self.title_text(size);
        if !focused {
            if size.0 == 1 {
                let mut text = chars_of("ProjViewer | ");
                append_chars(&mut text, &title);
                renderer.set_column(&text, Style::title(false), screen);
            } else {
                renderer.set_section(0, 0, title, Style::title(false), screen);
            }
        } else {
            renderer.set_section(0, 0, title, Style::title(true), screen);
            let rows = self.fs.iter(size.1.saturating_sub(1));
            draw_entries(renderer, &rows, self.at_line, screen);
            renderer.clear_rows(rows.len().saturating_add(1), size.1, Style::cleared(), screen);
            assert(screen@ =~= old(screen)@ + old(self)@.drawn(*renderer, focused));
        }
        (false, (0, 0))
    }
}

} // verus!

use vstd::prelude::*;
use vstd::multiset::Multiset;

use crate::errors::ShellError;
use crate::shell::{port_frame, port_resources_unchanged, session_record_unchanged, ShellPort,
    ShellPortView, DROP_EFFECT_COPY, DROP_EFFECT_MOVE};

verus! {

broadcast use vstd::multiset::group_multiset_axioms, vstd::seq_lib::group_to_multiset_ensures;

/// The characters this library reads as path separators.
pub open spec fn is_path_separator(c: char) -> bool {
    c == '/' || c == '\\'
}

/// A path with its trailing separators removed.
pub open spec fn strip_trailing_separators(s: Seq<char>) -> Seq<char>
    decreases s.len(),
{
    if s.len() > 0 && is_path_separator(s.last()) {
        strip_trailing_separators(s.drop_last())
    } else {
        s
    }
}

/// Whether a path holds a separator anywhere.
pub open spec fn has_separator(s: Seq<char>) -> bool {
    exists|j: int| 0 <= j < s.len() && is_path_separator(s[j])
}

/// The position of the last separator of a path that has one.
pub open spec fn last_separator_index(s: Seq<char>) -> int
    decreases s.len(),
{
    if s.len() == 0 {
        -1
    } else if is_path_separator(s.last()) {
        s.len() - 1
    } else {
        last_separator_index(s.drop_last())
    }
}

/// The parent directory of a path, as the drag validation compares
/// directories, following the platform convention: trailing separators are
/// ignored; an empty path, a root (separators only, such as `/`), and a
/// bare name without any separator (a drive root such as `C:\` once its
/// separator is stripped) have no parent; otherwise the parent is what
/// stands before the last separator, itself stripped of trailing
/// separators - or that leading separator run when nothing else stands
/// before it, so the parent of `/top` is `/`.
pub open spec fn parent_of(s: Seq<char>) -> Option<Seq<char>> {
    let t = strip_trailing_separators(s);
    if !has_separator(t) {
        Option::None
    } else {
        let k = last_separator_index(t);
        let p = strip_trailing_separators(t.take(k));
        if p.len() == 0 {
            Option::Some(t.take(k + 1))
        } else {
            Option::Some(p)
        }
    }
}

/// Stripping trailing separators keeps exactly the prefix up to the last
/// non-separator character.
proof fn lemma_strip_is_take(s: Seq<char>, e: int)
    requires
        0 <= e <= s.len(),
        forall|j: int| e <= j < s.len() ==> is_path_separator(s[j]),
        e > 0 ==> !is_path_separator(s[e - 1]),
    ensures
        strip_trailing_separators(s) == s.take(e),
    decreases s.len(),
{
    if s.len() == e {
        assert(s.take(e) =~= s);
    } else {
        assert(is_path_separator(s.last()));
        lemma_strip_is_take(s.drop_last(), e);
        assert(s.drop_last().take(e) =~= s.take(e));
    }
}

/// A separator with none after it is the last one.
proof fn lemma_last_separator_at(s: Seq<char>, k: int)
    requires
        0 <= k < s.len(),
        is_path_separator(s[k]),
        forall|j: int| k < j < s.len() ==> !is_path_separator(s[j]),
    ensures
        has_separator(s),
        last_separator_index(s) == k,
    decreases s.len(),
{
    assert(0 <= k < s.len() && is_path_separator(s[k]));
    if k < s.len() - 1 {
        assert(!is_path_separator(s.last()));
        assert(s.drop_last()[k] == s[k]);
        lemma_last_separator_at(s.drop_last(), k);
    }
}

/// The length a path keeps once its trailing separators before position
/// `end` are dropped.
fn stripped_len_upto(s: &str, end: usize) -> (e: usize)
    requires
        end as nat <= s@.len(),
    ensures
        e <= end,
        forall|j: int| e <= j < end ==> is_path_separator(s@[j]),
        e > 0 ==> !is_path_separator(s@[e - 1]),
        strip_trailing_separators(s@.take(end as int)) == s@.take(e as int),
{
    let mut e: usize = end;
    while e > 0
        invariant
            e <= end,
            end as nat <= s@.len(),
            forall|j: int| e <= j < end ==> is_path_separator(s@[j]),
        decreases e,
    {
        let c = s.get_char(e - 1);
        if !(c == '/' || c == '\\') {
            proof {
                assert forall|j: int| e <= j < end implies is_path_separator(
                    s@.take(end as int)[j],
                ) by {
                    assert(s@.take(end as int)[j] == s@[j]);
                }
                lemma_strip_is_take(s@.take(end as int), e as int);
                assert(s@.take(end as int).take(e as int) =~= s@.take(e as int));
            }
            return e;
        }
        e = e - 1;
    }
    proof {
        assert forall|j: int| 0 <= j < end implies is_path_separator(
            s@.take(end as int)[j],
        ) by {
            assert(s@.take(end as int)[j] == s@[j]);
        }
        lemma_strip_is_take(s@.take(end as int), 0);
        assert(s@.take(end as int).take(0) =~= s@.take(0));
    }
    0
}

/// Looks for the last separator strictly before position `end`.
fn last_separator_before(s: &str, end: usize) -> (r: Option<usize>)
    requires
        end as nat <= s@.len(),
    ensures
        match r {
            Some(k) => k < end && is_path_separator(s@[k as int]) && (forall|j: int|
                k < j < end ==> !is_path_separator(s@[j])),
            None => forall|j: int| 0 <= j < end ==> !is_path_separator(s@[j]),
        },
{
    let mut i: usize = end;
    while i > 0
        invariant
            i <= end,
            end as nat <= s@.len(),
            forall|j: int| i <= j < end ==> !is_path_separator(s@[j]),
        decreases i,
    {
        let c = s.get_char(i - 1);
        if c == '/' || c == '\\' {
            return Some(i - 1);
        }
        i = i - 1;
    }
    None
}

/// Computes the parent directory of one path, or reports that the path has
/// none.
pub fn parent_component(path: &String) -> (r: Option<String>)
    ensures
        match r {
            Some(p) => parent_of(path@) == Option::Some(p@),
            None => parent_of(path@) is None,
        },
{
    let s = path.as_str();
    let n = s.unicode_len();
    let e = stripped_len_upto(s, n);
    proof {
        assert(path@.take(n as int) =~= path@);
    }
    let ghost t = path@.take(e as int);
    match last_separator_before(s, e) {
        None => {
            proof {
                assert forall|j: int| 0 <= j < t.len() implies !is_path_separator(t[j]) by {
                    assert(t[j] == path@[j]);
                }
                assert(!has_separator(t));
            }
            None
        },
        Some(k) => {
            proof {
                assert(t[k as int] == path@[k as int]);
                assert forall|j: int| k < j < t.len() implies !is_path_separator(t[j]) by {
                    assert(t[j] == path@[j]);
                }
                lemma_last_separator_at(t, k as int);
            }
            let m = stripped_len_upto(s, k);
            proof {
                assert(t.take(k as int) =~= path@.take(k as int));
            }
            if m == 0 {
                proof {
                    assert(t.take(k as int + 1) =~= path@.take(k as int + 1));
                }
                let p = s.substring_char(0, k + 1);
                return Some(p.to_owned());
            }
            let p = s.substring_char(0, m);
            Some(p.to_owned())
        },
    }
}

/// The parent computation inverts path joining: a directory that does not
/// end in a separator, joined to a non-empty separator-free file name,
/// parses back to exactly that directory.
pub proof fn lemma_parent_of_join(dir: Seq<char>, name: Seq<char>)
    requires
        dir.len() > 0,
        !is_path_separator(dir.last()),
        name.len() > 0,
        forall|j: int| 0 <= j < name.len() ==> !is_path_separator(name[j]),
    ensures
        parent_of(dir + seq!['/'] + name) == Option::Some(dir),
{
    let s = dir + seq!['/'] + name;
    assert(s.last() == name.last());
    lemma_strip_is_take(s, s.len() as int);
    assert(s.take(s.len() as int) =~= s);
    let k = dir.len() as int;
    assert(s[k] == '/');
    assert forall|j: int| k < j < s.len() implies !is_path_separator(s[j]) by {
        assert(s[j] == name[j - k - 1]);
    }
    lemma_last_separator_at(s, k);
    assert(s.take(k) =~= dir);
    lemma_strip_is_take(dir, dir.len() as int);
    assert(dir.take(dir.len() as int) =~= dir);
}

/// A selection can be dragged only when every path has a parent directory
/// and all parents are one and the same (byte-equal) directory.
pub open spec fn selection_shares_parent(paths: Seq<String>) -> bool {
    forall|i: int|
        0 <= i < paths.len() ==> (#[trigger] parent_of(paths[i]@)) is Some && parent_of(paths[i]@)
            == parent_of(paths[0]@)
}

/// Validates a drag selection and computes its common parent directory.
/// An empty selection is `EmptySelectionError`; a selection whose paths do
/// not all share one parent (or where a path has no parent at all) is
/// `CrossDirectoryError`. Both checks are pure: no OS resource is touched.
pub fn common_parent(paths: &Vec<String>) -> (r: Result<String, ShellError>)
    ensures
        (r == Err::<String, ShellError>(ShellError::EmptySelectionError)) <==> paths@.len() == 0,
        (r == Err::<String, ShellError>(ShellError::CrossDirectoryError)) <==> (paths@.len() > 0
            && !selection_shares_parent(paths@)),
        r matches Err(e) ==> (e == ShellError::EmptySelectionError || e
            == ShellError::CrossDirectoryError),
        r matches Ok(p) ==> paths@.len() > 0 && selection_shares_parent(paths@) && parent_of(
            paths@[0]@,
        ) == Option::Some(p@),
{
    if paths.len() == 0 {
        return Err(ShellError::EmptySelectionError);
    }
    let p0 = match parent_component(&paths[0]) {
        None => {
            assert(!selection_shares_parent(paths@));
            return Err(ShellError::CrossDirectoryError);
        },
        Some(p) => p,
    };
    let mut k: usize = 1;
    while k < paths.len()
        invariant
            1 <= k <= paths@.len(),
            parent_of(paths@[0]@) == Option::Some(p0@),
            forall|i: int| 0 <= i < k ==> (#[trigger] parent_of(paths@[i]@)) == Option::Some(p0@),
        decreases paths@.len() - k,
    {
        match parent_component(&paths[k]) {
            None => {
                assert(!selection_shares_parent(paths@));
                return Err(ShellError::CrossDirectoryError);
            },
            Some(pk) => {
                if !(pk == p0) {
                    assert(parent_of(paths@[k as int]@) != parent_of(paths@[0]@));
                    assert(!selection_shares_parent(paths@));
                    return Err(ShellError::CrossDirectoryError);
                }
            },
        }
        k = k + 1;
    }
    Ok(p0)
}

/// The resolutions a drag session performs for its paths: each path beside
/// the identifier it received, in input order.
pub open spec fn parse_pairs(paths: Seq<String>, ids: Seq<u64>) -> Seq<(Seq<char>, u64)> {
    Seq::new(paths.len(), |i: int| (paths[i]@, ids[i]))
}

/// The trailing components of a sequence of full shell identifiers, in
/// order, as the port extracts them.
pub open spec fn children_of<S: ShellPortView>(port: S, ids: Seq<u64>) -> Seq<u64> {
    Seq::new(ids.len(), |i: int| port.child_of(ids[i]))
}

/// Releases every shell identifier a drag session acquired - the per-path
/// identifiers in reverse order of acquisition, then the folder identifier -
/// and tears down the COM-style machinery, restoring the port's
/// shell-identifier account to `base`.
fn release_selection<S: ShellPort>(
    shell: &mut S,
    folder: u64,
    ids: &Vec<u64>,
    base: Ghost<Multiset<u64>>,
)
    requires
        old(shell).com_depth() > 0,
        old(shell).shell_ids() == base@.insert(folder).add(ids@.to_multiset()),
    ensures
        port_frame(*old(shell), *final(shell)),
        session_record_unchanged(*old(shell), *final(shell)),
        final(shell).parses() == old(shell).parses(),
        final(shell).icons() == old(shell).icons(),
        final(shell).surfaces() == old(shell).surfaces(),
        final(shell).shell_ids() == base@,
        final(shell).com_depth() == (old(shell).com_depth() - 1) as nat,
        final(shell).acquire_count() == old(shell).acquire_count(),
{
    proof {
        assert(ids@.subrange(0, ids@.len() as int) =~= ids@);
    }
    let mut j: usize = ids.len();
    while j > 0
        invariant
            j <= ids@.len(),
            shell.com_depth() == old(shell).com_depth(),
            shell.icons() == old(shell).icons(),
            shell.surfaces() == old(shell).surfaces(),
            shell.acquire_count() == old(shell).acquire_count(),
            port_frame(*old(shell), *shell),
            session_record_unchanged(*old(shell), *shell),
            shell.parses() == old(shell).parses(),
            shell.shell_ids() == base@.insert(folder).add(
                ids@.subrange(0, j as int).to_multiset(),
            ),
        decreases j,
    {
        j = j - 1;
        proof {
            assert(ids@.subrange(0, j as int + 1) =~= ids@.subrange(0, j as int).push(
                ids@[j as int],
            ));
            assert(ids@.subrange(0, j as int + 1).to_multiset().count(ids@[j as int]) > 0) by {
                assert(ids@.subrange(0, j as int + 1)[j as int] == ids@[j as int]);
                assert(ids@.subrange(0, j as int + 1).contains(ids@[j as int]));
            }
        }
        shell.release_shell_id(ids[j]);
        proof {
            assert(shell.shell_ids() =~= base@.insert(folder).add(
                ids@.subrange(0, j as int).to_multiset(),
            ));
        }
    }
    proof {
        assert(ids@.subrange(0, 0) =~= Seq::<u64>::empty());
        assert(ids@.subrange(0, 0).to_multiset() =~= Multiset::<u64>::empty());
        assert(shell.shell_ids() =~= base@.insert(folder));
    }
    shell.release_shell_id(folder);
    proof {
        assert(shell.shell_ids() =~= base@);
    }
    shell.com_uninitialize();
}

/// Starts an OS drag-and-drop session for a selection of absolute paths and
/// blocks until the user resolves it.
///
/// The selection is validated before any OS resource is touched: an empty
/// selection and a selection without one common parent directory are
/// rejected with nothing acquired - the validation verdict comes first even
/// on a platform without native drag support - and an unsupported platform
/// is likewise reported before any acquisition. A session that reaches the
/// native loop is offered exactly the copy and move effects over one data
/// object, built from the folder identifier and one child identifier per
/// path in input order, and ends successfully whether the user dropped or
/// cancelled; no failing path ever reaches the loop. Whatever the outcome,
/// every acquired resource is released: the port's accounts end as they
/// began.
pub fn start_drag<S: ShellPort>(shell: &mut S, paths: &Vec<String>) -> (r: Result<(), ShellError>)
    ensures
        port_frame(*old(shell), *final(shell)),
        port_resources_unchanged(*old(shell), *final(shell)),
        (r == Err::<(), ShellError>(ShellError::EmptySelectionError)) <==> paths@.len() == 0,
        (r == Err::<(), ShellError>(ShellError::CrossDirectoryError)) <==> (paths@.len() > 0
            && !selection_shares_parent(paths@)),
        (r == Err::<(), ShellError>(ShellError::PlatformUnsupportedError)) <==> (paths@.len() > 0
            && selection_shares_parent(paths@) && !old(shell).native_supported()),
        (paths@.len() == 0 || !selection_shares_parent(paths@) || !old(shell).native_supported()) ==> final(shell).acquire_count() == old(shell).acquire_count(),
        r matches Err(e) ==> (e == ShellError::EmptySelectionError || e
            == ShellError::CrossDirectoryError || e == ShellError::PlatformUnsupportedError || e
            == ShellError::ShellQueryError || e == ShellError::DataObjectError),
        r == Err::<(), ShellError>(ShellError::ShellQueryError) ==> paths@.len() > 0
            && selection_shares_parent(paths@) && old(shell).native_supported(),
        r == Err::<(), ShellError>(ShellError::DataObjectError) ==> final(shell).acquire_count()
            == old(shell).acquire_count() + 2 + paths@.len(),
        r is Ok ==> paths@.len() > 0 && selection_shares_parent(paths@) && old(shell).native_supported() && final(shell).acquire_count() == old(shell).acquire_count() + 2
            + paths@.len(),
        r is Err ==> session_record_unchanged(*old(shell), *final(shell)),
        r is Ok ==> (exists|dobj: u64, folder: u64, ids: Seq<u64>, pdir: Seq<char>|
            parent_of(paths@[0]@) == Option::Some(pdir) && ids.len() == paths@.len() && final(shell).parses() == old(shell).parses().push((pdir, folder)) + parse_pairs(paths@, ids)
                && final(shell).last_data_object() == Some::<(u64, u64, Seq<u64>)>(
                (dobj, folder, children_of(*final(shell), ids)),
            ) && final(shell).last_drag_offer() == Some::<(u64, u32)>(
                (dobj, DROP_EFFECT_COPY | DROP_EFFECT_MOVE),
            )),
{
    let parent = match common_parent(paths) {
        Err(e) => {
            return Err(e);
        },
        Ok(p) => p,
    };
    if !shell.supports_native_shell() {
        return Err(ShellError::PlatformUnsupportedError);
    }
    if !shell.com_initialize() {
        return Err(ShellError::ShellQueryError);
    }
    let folder = match shell.parse_shell_path(&parent) {
        None => {
            shell.com_uninitialize();
            return Err(ShellError::ShellQueryError);
        },
        Some(f) => f,
    };
    let mut full_ids: Vec<u64> = Vec::new();
    let mut children: Vec<u64> = Vec::new();
    proof {
        assert(full_ids@.to_multiset() =~= Multiset::<u64>::empty());
        assert(shell.shell_ids() =~= old(shell).shell_ids().insert(folder).add(
            full_ids@.to_multiset(),
        ));
        assert(parse_pairs(paths@.subrange(0, 0), full_ids@) =~= Seq::<(Seq<char>, u64)>::empty());
        assert(shell.parses() =~= old(shell).parses().push((parent@, folder)) + parse_pairs(
            paths@.subrange(0, 0),
            full_ids@,
        ));
    }
    let mut k: usize = 0;
    while k < paths.len()
        invariant
            k <= paths@.len(),
            full_ids@.len() == k,
            children@.len() == k,
            paths@.len() > 0,
            selection_shares_parent(paths@),
            old(shell).native_supported(),
            shell.native_supported(),
            port_frame(*old(shell), *shell),
            shell.icons() == old(shell).icons(),
            shell.surfaces() == old(shell).surfaces(),
            shell.com_depth() == old(shell).com_depth() + 1,
            session_record_unchanged(*old(shell), *shell),
            parent_of(paths@[0]@) == Option::Some(parent@),
            shell.parses() == old(shell).parses().push((parent@, folder)) + parse_pairs(
                paths@.subrange(0, k as int),
                full_ids@,
            ),
            forall|i: int| 0 <= i < k ==> children@[i] == shell.child_of(#[trigger] full_ids@[i]),
            shell.shell_ids() == old(shell).shell_ids().insert(folder).add(
                full_ids@.to_multiset(),
            ),
            shell.acquire_count() == old(shell).acquire_count() + 2 + k,
        decreases paths@.len() - k,
    {
        match shell.parse_shell_path(&paths[k]) {
            None => {
                release_selection(shell, folder, &full_ids, Ghost(old(shell).shell_ids()));
                return Err(ShellError::ShellQueryError);
            },
            Some(id) => {
                let child = shell.child_shell_id(id);
                proof {
                    assert(shell.shell_ids() =~= old(shell).shell_ids().insert(folder).add(
                        full_ids@.push(id).to_multiset(),
                    ));
                    assert(parse_pairs(paths@.subrange(0, k as int + 1), full_ids@.push(id))
                        =~= parse_pairs(paths@.subrange(0, k as int), full_ids@).push(
                        (paths@[k as int]@, id),
                    ));
                    assert(shell.parses() =~= old(shell).parses().push((parent@, folder))
                        + parse_pairs(paths@.subrange(0, k as int + 1), full_ids@.push(id)));
                }
                full_ids.push(id);
                children.push(child);
            },
        }
        k = k + 1;
    }
    let data_object = match shell.create_data_object(folder, &children) {
        None => {
            release_selection(shell, folder, &full_ids, Ghost(old(shell).shell_ids()));
            return Err(ShellError::DataObjectError);
        },
        Some(d) => d,
    };
    // The loop resolves to a drop or a user cancellation; both are normal
    // endings of the session and the negotiated effect is not needed.
    let _outcome = shell.run_drag_loop(data_object, DROP_EFFECT_COPY | DROP_EFFECT_MOVE);
    release_selection(shell, folder, &full_ids, Ghost(old(shell).shell_ids()));
    proof {
        assert(parse_pairs(paths@.subrange(0, paths@.len() as int), full_ids@) =~= parse_pairs(
            paths@,
            full_ids@,
        ));
        assert(shell.parses() == old(shell).parses().push((parent@, folder)) + parse_pairs(
            paths@,
            full_ids@,
        ));
        assert(children@ =~= children_of(*shell, full_ids@));
        assert(shell.last_data_object() == Some::<(u64, u64, Seq<u64>)>(
            (data_object, folder, children_of(*shell, full_ids@)),
        ));
        assert(shell.last_drag_offer() == Some::<(u64, u32)>(
            (data_object, DROP_EFFECT_COPY | DROP_EFFECT_MOVE),
        ));
    }
    Ok(())
}

} // verus!

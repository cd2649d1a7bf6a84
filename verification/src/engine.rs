//! The download reconciliation algorithm.
//!
//! Reconciliation lists the remote artifacts, keeps only setup files
//! (`.sto`), resolves each one's local path through the catalog, and plans a
//! download for exactly those whose path does not exist yet — where a path
//! written earlier in the same run counts as existing, since the remote may
//! list the same identity twice.  The surrounding application executes the
//! plan in order (create the directory chain, download, write), aborting the
//! run on the first failure and reporting how many files it wrote.

use vstd::prelude::*;

use crate::models::{DatapackFile, Metadata};
use crate::naming::{artifact_dir_path, artifact_full_path, spec_dir_path, spec_full_path};
use crate::text::{is_setup_file, spec_is_setup_file};

verus! {

/// The artifacts reconciliation considers: those whose file name ends in the
/// exact suffix `.sto`, in listing order.
pub open spec fn spec_setup_filter(files: Seq<DatapackFile>) -> Seq<DatapackFile> {
    files.filter(|f: DatapackFile| spec_is_setup_file(f.file_name@))
}

fn clone_file(f: &DatapackFile) -> (r: DatapackFile)
    ensures
        r == *f,
{
    DatapackFile {
        file_name: f.file_name.clone(),
        display_name: f.display_name.clone(),
        track_id: f.track_id,
        car_id: f.car_id,
        datapack_id: f.datapack_id.clone(),
        session_id: f.session_id.clone(),
    }
}

/// Keeps only the setup files of a remote listing, in order.
pub fn filter_setup_files(files: &Vec<DatapackFile>) -> (r: Vec<DatapackFile>)
    ensures
        r@ == spec_setup_filter(files@),
{
    let pred = Ghost(|f: DatapackFile| spec_is_setup_file(f.file_name@));
    let n = files.len();
    let mut r: Vec<DatapackFile> = Vec::new();
    let mut i: usize = 0;
    while i < n
        invariant
            n == files@.len(),
            i <= n,
            pred@ == (|f: DatapackFile| spec_is_setup_file(f.file_name@)),
            r@ == files@.take(i as int).filter(pred@),
        decreases n - i,
    {
        if is_setup_file(files[i].file_name.as_str()) {
            r.push(clone_file(&files[i]));
        }
        proof {
            assert(files@.take(i + 1) =~= files@.take(i as int).push(files@[i as int]));
            files@.take(i as int).lemma_filter_push(files@[i as int], pred@);
        }
        i = i + 1;
    }
    proof {
        assert(files@.take(n as int) =~= files@);
    }
    r
}

/// One planned download: the artifact's remote identity together with the
/// local directory chain and full path it is written to.
#[derive(Debug, Clone)]
pub struct DownloadItem {
    pub datapack_id: String,
    pub session_id: String,
    pub file_name: String,
    pub display_name: String,
    pub dir_path: String,
    pub full_path: String,
}

/// This item carries the identity of `f` and the local paths the naming
/// policy assigns to `f`.
pub open spec fn spec_item_matches(it: DownloadItem, m: Metadata, f: DatapackFile) -> bool {
    &&& it.datapack_id == f.datapack_id
    &&& it.session_id == f.session_id
    &&& it.file_name == f.file_name
    &&& it.display_name == f.display_name
    &&& it.dir_path@ == spec_dir_path(m, f)
    &&& it.full_path@ == spec_full_path(m, f)
}

/// The files a reconciliation run downloads, in order.  `existing[i]` says
/// whether the local path of `files[i]` existed on disk when the run began;
/// `taken` holds the paths already written earlier in the run.  A file is
/// planned exactly when its path neither existed nor was written before it.
pub open spec fn spec_plan(
    m: Metadata,
    files: Seq<DatapackFile>,
    existing: Seq<bool>,
    taken: Set<Seq<char>>,
) -> Seq<DatapackFile>
    decreases files.len(),
{
    if files.len() == 0 {
        Seq::empty()
    } else {
        let f = files[0];
        let p = spec_full_path(m, f);
        if !existing[0] && !taken.contains(p) {
            seq![f] + spec_plan(m, files.drop_first(), existing.drop_first(), taken.insert(p))
        } else {
            spec_plan(m, files.drop_first(), existing.drop_first(), taken)
        }
    }
}

/// The set of local paths a plan writes.
pub open spec fn spec_plan_paths(m: Metadata, chosen: Seq<DatapackFile>) -> Set<Seq<char>>
    decreases chosen.len(),
{
    if chosen.len() == 0 {
        Set::empty()
    } else {
        spec_plan_paths(m, chosen.drop_first()).insert(spec_full_path(m, chosen[0]))
    }
}

/// The set of path views held in an executable list of paths.
pub open spec fn spec_path_set(paths: Seq<String>) -> Set<Seq<char>> {
    Set::new(|p: Seq<char>| exists|j: int| 0 <= j < paths.len() && paths[j]@ == p)
}

fn contains_path(paths: &Vec<String>, p: &String) -> (r: bool)
    ensures
        r == spec_path_set(paths@).contains(p@),
{
    let n = paths.len();
    let mut i: usize = 0;
    while i < n
        invariant
            n == paths@.len(),
            i <= n,
            forall|j: int| 0 <= j < i ==> (#[trigger] paths@[j])@ != p@,
        decreases n - i,
    {
        if paths[i] == *p {
            return true;
        }
        i = i + 1;
    }
    false
}

/// Plans one reconciliation run over an already filtered listing.
///
/// `existing[i]` must say whether the local path of `files[i]` exists on
/// disk.  The result lists, in listing order, one item for exactly those
/// files whose path neither exists nor belongs to an earlier item of the
/// same run, each carrying the artifact's identity and its local paths.
pub fn plan_downloads(metadata: &Metadata, files: &Vec<DatapackFile>, existing: &Vec<bool>) -> (r:
    Vec<DownloadItem>)
    requires
        files@.len() == existing@.len(),
    ensures
        ({
            let chosen = spec_plan(*metadata, files@, existing@, Set::empty());
            &&& r@.len() == chosen.len()
            &&& forall|k: int|
                0 <= k < chosen.len() ==> spec_item_matches(#[trigger] r@[k], *metadata, chosen[k])
        }),
{
    let n = files.len();
    let mut r: Vec<DownloadItem> = Vec::new();
    let mut taken_paths: Vec<String> = Vec::new();
    let ghost mut chosen_pre: Seq<DatapackFile> = Seq::empty();
    let mut i: usize = 0;
    proof {
        assert(files@.skip(0) =~= files@);
        assert(existing@.skip(0) =~= existing@);
        assert(spec_path_set(taken_paths@) =~= Set::<Seq<char>>::empty());
        assert(chosen_pre + spec_plan(*metadata, files@, existing@, Set::empty()) =~= spec_plan(
            *metadata,
            files@,
            existing@,
            Set::empty(),
        ));
    }
    while i < n
        invariant
            n == files@.len(),
            n == existing@.len(),
            i <= n,
            spec_plan(*metadata, files@, existing@, Set::empty()) == chosen_pre + spec_plan(
                *metadata,
                files@.skip(i as int),
                existing@.skip(i as int),
                spec_path_set(taken_paths@),
            ),
            r@.len() == chosen_pre.len(),
            forall|k: int|
                0 <= k < chosen_pre.len() ==> spec_item_matches(
                    #[trigger] r@[k],
                    *metadata,
                    chosen_pre[k],
                ),
        decreases n - i,
    {
        let ghost taken = spec_path_set(taken_paths@);
        let ghost rest = spec_plan(
            *metadata,
            files@.skip(i as int),
            existing@.skip(i as int),
            taken,
        );
        proof {
            assert(files@.skip(i as int)[0] == files@[i as int]);
            assert(existing@.skip(i as int)[0] == existing@[i as int]);
            assert(files@.skip(i as int).drop_first() =~= files@.skip(i + 1));
            assert(existing@.skip(i as int).drop_first() =~= existing@.skip(i + 1));
        }
        if !existing[i] {
            let full = artifact_full_path(metadata, &files[i]);
            if !contains_path(&taken_paths, &full) {
                let f = &files[i];
                let dir = artifact_dir_path(metadata, f);
                let item = DownloadItem {
                    datapack_id: f.datapack_id.clone(),
                    session_id: f.session_id.clone(),
                    file_name: f.file_name.clone(),
                    display_name: f.display_name.clone(),
                    dir_path: dir,
                    full_path: full.clone(),
                };
                r.push(item);
                let ghost pre_paths = taken_paths@;
                taken_paths.push(full);
                proof {
                    let p = spec_full_path(*metadata, files@[i as int]);
                    let newp = taken_paths@;
                    assert(newp == pre_paths.push(full));
                    assert forall|q: Seq<char>|
                        spec_path_set(newp).contains(q) implies taken.insert(p).contains(q) by {
                        let j = choose|j: int| 0 <= j < newp.len() && newp[j]@ == q;
                        if j < pre_paths.len() {
                            assert(pre_paths[j]@ == q);
                            assert(taken.contains(q));
                        } else {
                            assert(newp[j] == full);
                        }
                    }
                    assert forall|q: Seq<char>|
                        taken.insert(p).contains(q) implies spec_path_set(newp).contains(q) by {
                        if q == p {
                            assert(newp[newp.len() - 1]@ == q);
                            assert(spec_path_set(newp).contains(q));
                        } else {
                            assert(taken.contains(q));
                            let j = choose|j: int| 0 <= j < pre_paths.len() && pre_paths[j]@ == q;
                            assert(newp[j]@ == q);
                            assert(spec_path_set(newp).contains(q));
                        }
                    }
                    assert(spec_path_set(taken_paths@) =~= taken.insert(p));
                    assert(rest == seq![files@[i as int]] + spec_plan(
                        *metadata,
                        files@.skip(i + 1),
                        existing@.skip(i + 1),
                        taken.insert(p),
                    ));
                    assert(rest.drop_first() =~= spec_plan(
                        *metadata,
                        files@.skip(i + 1),
                        existing@.skip(i + 1),
                        taken.insert(p),
                    ));
                    chosen_pre = chosen_pre.push(files@[i as int]);
                    assert(chosen_pre + rest.drop_first() =~= (chosen_pre.drop_last() + rest));
                }
            } else {
                proof {
                    assert(rest == spec_plan(
                        *metadata,
                        files@.skip(i + 1),
                        existing@.skip(i + 1),
                        taken,
                    ));
                }
            }
        } else {
            proof {
                assert(rest == spec_plan(
                    *metadata,
                    files@.skip(i + 1),
                    existing@.skip(i + 1),
                    taken,
                ));
            }
        }
        i = i + 1;
    }
    proof {
        assert(files@.skip(n as int).len() == 0);
        assert(chosen_pre + spec_plan(
            *metadata,
            files@.skip(n as int),
            existing@.skip(n as int),
            spec_path_set(taken_paths@),
        ) =~= chosen_pre);
    }
    r
}

proof fn lemma_plan_covers(
    m: Metadata,
    files: Seq<DatapackFile>,
    existing: Seq<bool>,
    taken: Set<Seq<char>>,
    i: int,
)
    requires
        files.len() == existing.len(),
        0 <= i < files.len(),
    ensures
        existing[i] || taken.contains(spec_full_path(m, files[i])) || spec_plan_paths(
            m,
            spec_plan(m, files, existing, taken),
        ).contains(spec_full_path(m, files[i])),
    decreases files.len(),
{
    let f0 = files[0];
    let p0 = spec_full_path(m, f0);
    let plan = spec_plan(m, files, existing, taken);
    if !existing[0] && !taken.contains(p0) {
        let rest = spec_plan(m, files.drop_first(), existing.drop_first(), taken.insert(p0));
        assert(plan == seq![f0] + rest);
        assert(plan.drop_first() =~= rest);
        assert(plan[0] == f0);
        assert(spec_plan_paths(m, plan) == spec_plan_paths(m, rest).insert(p0));
        if i == 0 {
            assert(spec_plan_paths(m, plan).contains(p0));
        } else {
            lemma_plan_covers(m, files.drop_first(), existing.drop_first(), taken.insert(p0), i - 1);
            let pi = spec_full_path(m, files[i]);
            if taken.insert(p0).contains(pi) && !taken.contains(pi) {
                assert(pi == p0);
            }
        }
    } else {
        let rest = spec_plan(m, files.drop_first(), existing.drop_first(), taken);
        assert(plan == rest);
        if i > 0 {
            lemma_plan_covers(m, files.drop_first(), existing.drop_first(), taken, i - 1);
        }
    }
}

proof fn lemma_plan_empty_when_all_exist(
    m: Metadata,
    files: Seq<DatapackFile>,
    existing: Seq<bool>,
    taken: Set<Seq<char>>,
)
    requires
        files.len() == existing.len(),
        forall|i: int| 0 <= i < existing.len() ==> existing[i],
    ensures
        spec_plan(m, files, existing, taken).len() == 0,
    decreases files.len(),
{
    if files.len() > 0 {
        lemma_plan_empty_when_all_exist(m, files.drop_first(), existing.drop_first(), taken);
    }
}

proof fn lemma_plan_members(
    m: Metadata,
    files: Seq<DatapackFile>,
    existing: Seq<bool>,
    taken: Set<Seq<char>>,
)
    requires
        files.len() == existing.len(),
    ensures
        forall|k: int|
            0 <= k < spec_plan(m, files, existing, taken).len() ==> exists|j: int|
                0 <= j < files.len() && #[trigger] spec_plan(m, files, existing, taken)[k]
                    == files[j] && !existing[j],
    decreases files.len(),
{
    let plan = spec_plan(m, files, existing, taken);
    if files.len() > 0 {
        let f0 = files[0];
        let p0 = spec_full_path(m, f0);
        if !existing[0] && !taken.contains(p0) {
            let rest = spec_plan(m, files.drop_first(), existing.drop_first(), taken.insert(p0));
            lemma_plan_members(m, files.drop_first(), existing.drop_first(), taken.insert(p0));
            assert(plan == seq![f0] + rest);
            assert forall|k: int| 0 <= k < plan.len() implies exists|j: int|
                0 <= j < files.len() && #[trigger] plan[k] == files[j] && !existing[j] by {
                if k == 0 {
                    assert(plan[k] == files[0] && !existing[0]);
                } else {
                    assert(plan[k] == rest[k - 1]);
                    let j1 = choose|j1: int|
                        0 <= j1 < files.drop_first().len() && rest[k - 1] == files.drop_first()[j1]
                            && !existing.drop_first()[j1];
                    assert(plan[k] == files[j1 + 1] && !existing[j1 + 1]);
                }
            }
        } else {
            let rest = spec_plan(m, files.drop_first(), existing.drop_first(), taken);
            lemma_plan_members(m, files.drop_first(), existing.drop_first(), taken);
            assert(plan == rest);
            assert forall|k: int| 0 <= k < plan.len() implies exists|j: int|
                0 <= j < files.len() && #[trigger] plan[k] == files[j] && !existing[j] by {
                let j1 = choose|j1: int|
                    0 <= j1 < files.drop_first().len() && rest[k] == files.drop_first()[j1]
                        && !existing.drop_first()[j1];
                assert(plan[k] == files[j1 + 1] && !existing[j1 + 1]);
            }
        }
    }
}

/// Pre-existing files are never rewritten: provided two artifacts resolving
/// to one path carry the same existence flag (as a single on-disk check per
/// path gives), no planned download names the path of an artifact whose flag
/// says the file already exists — so the bytes at such a path stay untouched.
pub proof fn lemma_existing_paths_untouched(
    m: Metadata,
    files: Seq<DatapackFile>,
    existing: Seq<bool>,
)
    requires
        files.len() == existing.len(),
        forall|i: int, j: int|
            0 <= i < files.len() && 0 <= j < files.len() && #[trigger] spec_full_path(m, files[i])
                == #[trigger] spec_full_path(m, files[j]) ==> existing[i] == existing[j],
    ensures
        forall|k: int, i: int|
            0 <= k < spec_plan(m, files, existing, Set::empty()).len() && 0 <= i < files.len()
                && existing[i] ==> spec_full_path(
                m,
                #[trigger] spec_plan(m, files, existing, Set::empty())[k],
            ) != spec_full_path(m, #[trigger] files[i]),
{
    let plan = spec_plan(m, files, existing, Set::empty());
    lemma_plan_members(m, files, existing, Set::empty());
    assert forall|k: int, i: int|
        0 <= k < plan.len() && 0 <= i < files.len() && existing[i] implies spec_full_path(
        m,
        #[trigger] plan[k],
    ) != spec_full_path(m, #[trigger] files[i]) by {
        let j = choose|j: int| 0 <= j < files.len() && plan[k] == files[j] && !existing[j];
        assert(spec_full_path(m, plan[k]) == spec_full_path(m, files[j]));
    }
}

/// Idempotence of reconciliation: a second run over the same catalog and the
/// same listing plans nothing, because afterwards a path exists exactly when
/// it existed before the first run or the first run wrote it.
pub proof fn lemma_reconcile_idempotent(
    m: Metadata,
    files: Seq<DatapackFile>,
    before: Seq<bool>,
    after: Seq<bool>,
)
    requires
        files.len() == before.len(),
        files.len() == after.len(),
        forall|i: int|
            0 <= i < files.len() ==> after[i] == (before[i] || spec_plan_paths(
                m,
                spec_plan(m, files, before, Set::empty()),
            ).contains(spec_full_path(m, files[i]))),
    ensures
        spec_plan(m, files, after, Set::empty()).len() == 0,
{
    assert forall|i: int| 0 <= i < files.len() implies after[i] by {
        lemma_plan_covers(m, files, before, Set::empty(), i);
    }
    lemma_plan_empty_when_all_exist(m, files, after, Set::empty());
}

} // verus!

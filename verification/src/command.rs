//! Argument lists for the external build tool's `update` and `vendor`
//! subcommands. Both run with verbose diagnostics against one manifest;
//! `vendor` additionally synchronizes any number of extra manifests, one
//! `--sync <path>` pair each, in the order they were given.

use vstd::prelude::*;

verus! {

/// The arguments common to both subcommands: verbose diagnostics and the
/// manifest to operate on.
pub open spec fn spec_base_args(manifest_path: Seq<char>) -> Seq<Seq<char>> {
    seq!["-vv"@, "--manifest-path"@, manifest_path]
}

/// One `--sync <path>` pair per extra manifest, in the given order.
pub open spec fn spec_sync_args(extra: Seq<Seq<char>>) -> Seq<Seq<char>>
    decreases extra.len(),
{
    if extra.len() == 0 {
        Seq::empty()
    } else {
        spec_sync_args(extra.drop_last()) + seq!["--sync"@, extra.last()]
    }
}

pub fn update_args(manifest_path: &str) -> (r: Vec<String>)
    ensures
        r.deep_view() == spec_base_args(manifest_path@),
{
    let mut v: Vec<String> = Vec::new();
    v.push(String::from_str("-vv"));
    v.push(String::from_str("--manifest-path"));
    v.push(String::from_str(manifest_path));
    proof {
        assert(v.deep_view() =~= spec_base_args(manifest_path@));
    }
    v
}

pub fn vendor_args(manifest_path: &str, extra_manifest_paths: &Vec<String>) -> (r: Vec<String>)
    ensures
        r.deep_view() == spec_base_args(manifest_path@) + spec_sync_args(
            extra_manifest_paths.deep_view(),
        ),
{
    let ghost extras: Seq<Seq<char>> = extra_manifest_paths.deep_view();
    let mut v = update_args(manifest_path);
    let mut i: usize = 0;
    while i < extra_manifest_paths.len()
        invariant
            i <= extra_manifest_paths.len(),
            extras == extra_manifest_paths.deep_view(),
            v.deep_view() == spec_base_args(manifest_path@) + spec_sync_args(
                extras.take(i as int),
            ),
        decreases extra_manifest_paths.len() - i,
    {
        let p: &String = &extra_manifest_paths[i];
        let ghost dv_before = v.deep_view();
        v.push(String::from_str("--sync"));
        v.push(String::from_str(p.as_str()));
        proof {
            let stepped = extras.take(i + 1);
            assert(stepped.drop_last() =~= extras.take(i as int));
            assert(stepped.last() == extras[i as int]);
            assert(spec_sync_args(stepped) == spec_sync_args(extras.take(i as int)) + seq![
                "--sync"@,
                extras[i as int],
            ]);
            assert(v.deep_view() =~~= dv_before + seq!["--sync"@, extras[i as int]]);
            assert(v.deep_view() =~~= spec_base_args(manifest_path@) + spec_sync_args(stepped));
        }
        i = i + 1;
    }
    proof {
        assert(extras.take(extras.len() as int) =~= extras);
    }
    v
}

} // verus!

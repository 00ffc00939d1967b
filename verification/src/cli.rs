use vstd::prelude::*;

use crate::text::{str_equal, views};

verus! {

/// Whether `flag` is one of the arguments.
pub fn has_flag(args: &Vec<String>, flag: &str) -> (present: bool)
    ensures
        present == exists|i: int| 0 <= i < args@.len() && args@[i]@ == flag@,
{
    let mut i: usize = 0;
    while i < args.len()
        invariant
            i <= args@.len(),
            forall|j: int| 0 <= j < i ==> args@[j]@ != flag@,
        decreases args@.len() - i,
    {
        if str_equal(args[i].as_str(), flag) {
            return true;
        }
        i = i + 1;
    }
    false
}

/// The argument right after the first occurrence of `flag` that has one.
pub open spec fn spec_flag_value(args: Seq<Seq<char>>, flag: Seq<char>) -> Option<Seq<char>>
    decreases args.len(),
{
    if args.len() < 2 {
        None
    } else if args[0] == flag {
        Some(args[1])
    } else {
        spec_flag_value(args.drop_first(), flag)
    }
}

/// The value given to `flag` (`--flag value`); the first occurrence wins.
pub fn parse_path_flag(args: &Vec<String>, flag: &str) -> (value: Option<String>)
    ensures
        (match value { Some(v) => Some(v@), None => None }) == spec_flag_value(views(args@), flag@),
{
    let mut i: usize = 0;
    assert(views(args@).skip(0) =~= views(args@));
    while args.len() - i > 1
        invariant
            i <= args@.len(),
            spec_flag_value(views(args@).skip(i as int), flag@) == spec_flag_value(views(args@), flag@),
        decreases args@.len() - i,
    {
        let ghost rest = views(args@).skip(i as int);
        assert(rest[0] == args@[i as int]@);
        if str_equal(args[i].as_str(), flag) {
            assert(rest[1] == args@[i + 1]@);
            return Some(args[i + 1].clone());
        }
        assert(rest.drop_first() =~= views(args@).skip(i + 1));
        i = i + 1;
    }
    proof {
        assert(views(args@).skip(i as int).len() < 2);
    }
    None
}

/// Scans the arguments from position `i` for `--lat` and `--lon`: a flag
/// takes the next argument as its value (the last one given wins) and the
/// scan continues after that value; other arguments are skipped one by one.
pub open spec fn scan_lat_lon(
    args: Seq<Seq<char>>,
    i: int,
    lat: Option<Seq<char>>,
    lon: Option<Seq<char>>,
) -> (Option<Seq<char>>, Option<Seq<char>>)
    decreases args.len() - i,
{
    if i < 0 || i + 1 >= args.len() {
        (lat, lon)
    } else if args[i] == "--lat"@ {
        scan_lat_lon(args, i + 2, Some(args[i + 1]), lon)
    } else if args[i] == "--lon"@ {
        scan_lat_lon(args, i + 2, lat, Some(args[i + 1]))
    } else {
        scan_lat_lon(args, i + 1, lat, lon)
    }
}

/// The texts given to `--lat` and `--lon`, still to be read as numbers.
pub fn lat_lon_args(args: &Vec<String>) -> (texts: (Option<String>, Option<String>))
    ensures
        ((match texts.0 { Some(v) => Some(v@), None => None }), (match texts.1 { Some(v) => Some(v@), None => None }))
            == scan_lat_lon(views(args@), 0, None, None),
{
    let mut lat: Option<String> = None;
    let mut lon: Option<String> = None;
    let mut i: usize = 0;
    while args.len() - i > 1
        invariant
            i <= args@.len(),
            scan_lat_lon(
                views(args@),
                i as int,
                match lat { Some(v) => Some(v@), None => None },
                match lon { Some(v) => Some(v@), None => None },
            ) == scan_lat_lon(views(args@), 0, None, None),
        decreases args@.len() - i,
    {
        assert(views(args@)[i as int] == args@[i as int]@);
        assert(views(args@)[i + 1] == args@[i + 1]@);
        if str_equal(args[i].as_str(), "--lat") {
            lat = Some(args[i + 1].clone());
            i = i + 2;
        } else if str_equal(args[i].as_str(), "--lon") {
            lon = Some(args[i + 1].clone());
            i = i + 2;
        } else {
            i = i + 1;
        }
    }
    (lat, lon)
}

} // verus!

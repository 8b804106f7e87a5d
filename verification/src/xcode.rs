//! Reading the listing that `xcodebuild -list` prints for an iOS project.
use crate::text::{lemma_split_on_join, chars_equal, chars_of, ends_with, range_ends_with, split_bounds, split_on, trim, trim_bounds};
use vstd::prelude::*;

verus! {

/// The section of the listing that the lines being read belong to.
#[derive(Clone, Copy, PartialEq, Eq, Debug)]
pub enum XcodeSection {
    Targets,
    BuildConfigurations,
    Schemes,
}

/// What has been collected from a listing: the trimmed entries of each section.
pub struct XcodeListing {
    pub targets: Seq<Seq<char>>,
    pub build_configurations: Seq<Seq<char>>,
    pub schemes: Seq<Seq<char>>,
}

/// The section that a header line opens, if the line is one.
pub open spec fn section_header(line: Seq<char>) -> Option<XcodeSection> {
    if ends_with(line, "Targets:"@) {
        Some(XcodeSection::Targets)
    } else if ends_with(line, "Build Configurations:"@) {
        Some(XcodeSection::BuildConfigurations)
    } else if ends_with(line, "Schemes:"@) {
        Some(XcodeSection::Schemes)
    } else {
        None
    }
}

/// The section open after reading `lines`, and what was collected: an empty
/// line closes the open section, a header opens its section, and any other
/// line, trimmed, is an entry of the open section.
pub open spec fn read_listing(lines: Seq<Seq<char>>) -> (Option<XcodeSection>, XcodeListing)
    decreases lines.len(),
{
    if lines.len() == 0 {
        (
            None,
            XcodeListing {
                targets: Seq::empty(),
                build_configurations: Seq::empty(),
                schemes: Seq::empty(),
            },
        )
    } else {
        let (open, acc) = read_listing(lines.drop_last());
        let line = lines.last();
        if line.len() == 0 {
            (None, acc)
        } else if section_header(line) is Some {
            (section_header(line), acc)
        } else {
            match open {
                Some(XcodeSection::Targets) => (
                    open,
                    XcodeListing { targets: acc.targets.push(trim(line)), ..acc },
                ),
                Some(XcodeSection::BuildConfigurations) => (
                    open,
                    XcodeListing {
                        build_configurations: acc.build_configurations.push(trim(line)),
                        ..acc
                    },
                ),
                Some(XcodeSection::Schemes) => (
                    open,
                    XcodeListing { schemes: acc.schemes.push(trim(line)), ..acc },
                ),
                None => (open, acc),
            }
        }
    }
}

/// The listing collected from the whole output of `xcodebuild -list`.
pub open spec fn listing_of(output: Seq<char>) -> XcodeListing {
    read_listing(split_on(output, '\n')).1
}

pub open spec fn views(v: Seq<&str>) -> Seq<Seq<char>> {
    v.map_values(|s: &str| s@)
}

/// The entries of `a` followed by those of `b`, section by section.
pub open spec fn listing_concat(a: XcodeListing, b: XcodeListing) -> XcodeListing {
    XcodeListing {
        targets: a.targets + b.targets,
        build_configurations: a.build_configurations + b.build_configurations,
        schemes: a.schemes + b.schemes,
    }
}

proof fn lemma_read_listing_after_closed(p: Seq<Seq<char>>, q: Seq<Seq<char>>)
    requires
        read_listing(p).0 is None,
    ensures
        read_listing(p + q).0 == read_listing(q).0,
        read_listing(p + q).1 == listing_concat(read_listing(p).1, read_listing(q).1),
    decreases q.len(),
{
    let acc_p = read_listing(p).1;
    if q.len() == 0 {
        assert(p + q =~= p);
        let e = read_listing(q).1;
        assert(acc_p.targets + e.targets =~= acc_p.targets);
        assert(acc_p.build_configurations + e.build_configurations =~= acc_p.build_configurations);
        assert(acc_p.schemes + e.schemes =~= acc_p.schemes);
    } else {
        let q1 = q.drop_last();
        assert((p + q).drop_last() =~= p + q1);
        assert((p + q).last() == q.last());
        lemma_read_listing_after_closed(p, q1);
        let acc_q1 = read_listing(q1).1;
        assert((acc_p.targets + acc_q1.targets).push(trim(q.last())) =~= acc_p.targets + acc_q1.targets.push(trim(q.last())));
        assert((acc_p.build_configurations + acc_q1.build_configurations).push(trim(q.last())) =~= acc_p.build_configurations + acc_q1.build_configurations.push(trim(q.last())));
        assert((acc_p.schemes + acc_q1.schemes).push(trim(q.last())) =~= acc_p.schemes + acc_q1.schemes.push(trim(q.last())));
    }
}

/// Reading two listings joined by an empty line collects the entries of
/// the first and then those of the second, in each section: the empty line
/// closes whatever section the first left open.
pub proof fn lemma_listing_of_join(a: Seq<char>, b: Seq<char>)
    ensures
        listing_of(a + "\n\n"@ + b) == listing_concat(listing_of(a), listing_of(b)),
{
    reveal_strlit("\n\n");
    let x = a + seq!['\n'];
    assert(a + "\n\n"@ + b =~= x + seq!['\n'] + b);
    lemma_split_on_join(x, b, '\n');
    assert(x =~= a + seq!['\n'] + Seq::<char>::empty());
    lemma_split_on_join(a, Seq::<char>::empty(), '\n');
    let la = split_on(a, '\n');
    let p = la + split_on(Seq::<char>::empty(), '\n');
    assert(split_on(Seq::<char>::empty(), '\n') == seq![Seq::<char>::empty()]);
    assert(p.drop_last() =~= la);
    assert(p.last() == Seq::<char>::empty());
    assert(read_listing(p).0 is None);
    assert(read_listing(p).1 == read_listing(la).1);
    lemma_read_listing_after_closed(p, split_on(b, '\n'));
}

/// The targets, build configurations and schemes of an Xcode project.
pub struct XcodeProjectInfo<'a> {
    pub targets: Vec<&'a str>,
    pub build_configurations: Vec<&'a str>,
    pub schemes: Vec<&'a str>,
}

impl<'a> XcodeProjectInfo<'a> {
    /// Reads the output of `xcodebuild -list`.
    pub fn new_from_xcode_build_output(output: &'a str) -> (info: XcodeProjectInfo<'a>)
        ensures
            views(info.targets@) == listing_of(output@).targets,
            views(info.build_configurations@) == listing_of(output@).build_configurations,
            views(info.schemes@) == listing_of(output@).schemes,
    {
        let chars = chars_of(output);
        let bounds = split_bounds(&chars, '\n');
        let targets_header = chars_of("Targets:");
        let configurations_header = chars_of("Build Configurations:");
        let schemes_header = chars_of("Schemes:");
        let ghost lines = split_on(chars@, '\n');
        let mut targets: Vec<&'a str> = Vec::new();
        let mut build_configurations: Vec<&'a str> = Vec::new();
        let mut schemes: Vec<&'a str> = Vec::new();
        let mut collector: Option<XcodeSection> = None;
        let mut k: usize = 0;
        proof {
            assert(lines.take(0) =~= Seq::<Seq<char>>::empty());
        }
        while k < bounds.len()
            invariant
                chars@ == output@,
                lines == split_on(chars@, '\n'),
                bounds@.len() == lines.len(),
                forall|j: int|
                    0 <= j < bounds@.len() ==> {
                        &&& #[trigger] bounds@[j].0 <= bounds@[j].1 <= chars@.len()
                        &&& chars@.subrange(bounds@[j].0 as int, bounds@[j].1 as int) == lines[j]
                    },
                targets_header@ == "Targets:"@,
                configurations_header@ == "Build Configurations:"@,
                schemes_header@ == "Schemes:"@,
                k <= bounds.len(),
                collector == read_listing(lines.take(k as int)).0,
                views(targets@) == read_listing(lines.take(k as int)).1.targets,
                views(build_configurations@) == read_listing(
                    lines.take(k as int),
                ).1.build_configurations,
                views(schemes@) == read_listing(lines.take(k as int)).1.schemes,
            decreases bounds.len() - k,
        {
            let (from, to) = bounds[k];
            let ghost line = lines[k as int];
            proof {
                assert(lines.take(k + 1).drop_last() =~= lines.take(k as int));
                assert(lines.take(k + 1).last() == line);
            }
            if from == to {
                collector = None;
            } else if range_ends_with(&chars, from, to, &targets_header) {
                collector = Some(XcodeSection::Targets);
            } else if range_ends_with(&chars, from, to, &configurations_header) {
                collector = Some(XcodeSection::BuildConfigurations);
            } else if range_ends_with(&chars, from, to, &schemes_header) {
                collector = Some(XcodeSection::Schemes);
            } else {
                match collector {
                    Some(XcodeSection::Targets) => {
                        let (a, b) = trim_bounds(&chars, from, to);
                        targets.push(output.substring_char(a, b));
                        proof {
                            assert(views(targets@) =~= views(targets@.drop_last()).push(
                                trim(line),
                            ));
                        }
                    },
                    Some(XcodeSection::BuildConfigurations) => {
                        let (a, b) = trim_bounds(&chars, from, to);
                        build_configurations.push(output.substring_char(a, b));
                        proof {
                            assert(views(build_configurations@) =~= views(
                                build_configurations@.drop_last(),
                            ).push(trim(line)));
                        }
                    },
                    Some(XcodeSection::Schemes) => {
                        let (a, b) = trim_bounds(&chars, from, to);
                        schemes.push(output.substring_char(a, b));
                        proof {
                            assert(views(schemes@) =~= views(schemes@.drop_last()).push(
                                trim(line),
                            ));
                        }
                    },
                    None => {},
                }
            }
            k += 1;
        }
        proof {
            assert(lines.take(bounds.len() as int) =~= lines);
        }
        XcodeProjectInfo { targets, build_configurations, schemes }
    }
}

/// The schemes offered for running: none when the project only has the
/// default scheme `Runner` (or no scheme at all), else all of them.
pub open spec fn offered_schemes(schemes: Seq<Seq<char>>) -> Option<Seq<Seq<char>>> {
    if schemes.len() == 0 || schemes.contains("Runner"@) {
        None
    } else {
        Some(schemes)
    }
}

/// The schemes that a project whose listing is `info` offers for running.
pub fn schemes_to_run(info: &XcodeProjectInfo) -> (r: Option<Vec<String>>)
    ensures
        match r {
            Some(v) => offered_schemes(views(info.schemes@)) == Some(v@.map_values(|s: String| s@)),
            None => offered_schemes(views(info.schemes@)) is None,
        },
{
    let ghost all = views(info.schemes@);
    if info.schemes.len() == 0 {
        return None;
    }
    let runner = chars_of("Runner");
    let mut out: Vec<String> = Vec::new();
    let mut i: usize = 0;
    while i < info.schemes.len()
        invariant
            all == views(info.schemes@),
            runner@ == "Runner"@,
            i <= info.schemes.len(),
            forall|k: int| 0 <= k < i ==> all[k] != "Runner"@,
            out@.map_values(|s: String| s@) == all.take(i as int),
        decreases info.schemes.len() - i,
    {
        let scheme: &str = info.schemes[i];
        let chars = chars_of(scheme);
        if chars_equal(&chars, &runner) {
            assert(all[i as int] == "Runner"@);
            return None;
        }
        let owned = String::from_str(scheme);
        let ghost before = out@;
        out.push(owned);
        proof {
            assert(out@ == before.push(owned));
            assert(owned@ == all[i as int]);
            assert(out@.map_values(|s: String| s@) =~= before.map_values(|s: String| s@).push(
                owned@,
            ));
            assert(all.take(i + 1) =~= all.take(i as int).push(all[i as int]));
        }
        i += 1;
    }
    assert(all.take(i as int) =~= all);
    assert(!all.contains("Runner"@));
    Some(out)
}


/// A project with a scheme called `Runner`, at any place in the listing,
/// offers no choice of scheme, and neither does one without schemes; any
/// other project offers all its schemes, none of them `Runner`.
pub proof fn lemma_runner_means_no_choice(schemes: Seq<Seq<char>>, k: int)
    ensures
        0 <= k < schemes.len() && schemes[k] == "Runner"@ ==> offered_schemes(schemes) is None,
        schemes.len() == 0 ==> offered_schemes(schemes) is None,
        (schemes.len() > 0 && forall|j: int| 0 <= j < schemes.len() ==> schemes[j] != "Runner"@)
            ==> offered_schemes(schemes) == Some(schemes),
        offered_schemes(schemes) matches Some(v) ==> v.len() > 0 && (forall|j: int|
            0 <= j < v.len() ==> v[j] != "Runner"@),
{
    if 0 <= k < schemes.len() && schemes[k] == "Runner"@ {
        assert(schemes.contains("Runner"@));
    }
    if schemes.len() > 0 && forall|j: int| 0 <= j < schemes.len() ==> schemes[j] != "Runner"@ {
        assert(!schemes.contains("Runner"@));
    }
    if offered_schemes(schemes) is Some {
        assert forall|j: int| 0 <= j < schemes.len() implies schemes[j] != "Runner"@ by {
            if schemes[j] == "Runner"@ {
                assert(schemes.contains("Runner"@));
            }
        }
    }
}

/// Whatever was read before, a `Targets:` header followed by an entry line
/// adds that entry, trimmed, to the targets and to nothing else; and an
/// empty line after it closes the section, so that a later entry line is
/// collected nowhere.
pub proof fn lemma_header_collects_entry(p: Seq<Seq<char>>, header: Seq<char>, entry: Seq<char>, later: Seq<char>)
    requires
        ends_with(header, "Targets:"@),
        entry.len() > 0,
        section_header(entry) is None,
        later.len() > 0,
        section_header(later) is None,
    ensures
        read_listing(p.push(header).push(entry)).1.targets == read_listing(p).1.targets.push(
            trim(entry),
        ),
        read_listing(p.push(header).push(entry)).1.schemes == read_listing(p).1.schemes,
        read_listing(p.push(header).push(entry)).1.build_configurations == read_listing(
            p,
        ).1.build_configurations,
        read_listing(p.push(header).push(entry).push(Seq::empty()).push(later)).1
            == read_listing(p.push(header).push(entry)).1,
{
    reveal_strlit("Targets:");
    assert("Targets:"@.len() == 8);
    assert(header.len() >= 8);
    let q = p.push(header);
    assert(q.drop_last() =~= p);
    assert(header.len() > 0);
    assert(section_header(header) == Some(XcodeSection::Targets));
    assert(q.last() == header);
    assert(read_listing(q).0 == Some(XcodeSection::Targets));
    assert(read_listing(q).1 == read_listing(p).1);
    let r = q.push(entry);
    assert(r.drop_last() =~= q);
    assert(r.last() == entry);
    assert(read_listing(r).0 == Some(XcodeSection::Targets));
    let t = r.push(Seq::<char>::empty());
    assert(t.drop_last() =~= r);
    assert(t.last() == Seq::<char>::empty());
    assert(read_listing(t).0 is None);
    assert(read_listing(t).1 == read_listing(r).1);
    let u = t.push(later);
    assert(u.drop_last() =~= t);
    assert(u.last() == later);
    assert(read_listing(u).1 == read_listing(t).1);
}

} // verus!

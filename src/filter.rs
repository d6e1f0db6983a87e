use vstd::prelude::*;
use vstd::string::StringExecFns;

verus! {

/// A latency in microseconds for each of the four probes the directory
/// reports: in a filter they are ceilings, in an instance they are means.
#[derive(Clone, Copy, Debug, PartialEq, Eq)]
pub struct Timings {
    pub search: Option<u64>,
    pub google: Option<u64>,
    pub wikipedia: Option<u64>,
    pub initial: Option<u64>,
}

/// The acceptance rules of one filter pass.
#[derive(Clone, Debug)]
pub struct Filter {
    /// Ceilings per probe; `None` accepts every latency.
    pub response_times: Option<Timings>,
    /// Accepted grade labels; `None` stands for `C` and `V`.
    pub grades: Option<Vec<String>>,
}

/// One entry of the instance directory, keyed by its URL. A field the
/// directory left out is an empty string, or `None` for the timing object.
#[derive(Clone, Debug)]
pub struct Instance {
    pub url: String,
    pub grade: String,
    pub network_type: String,
    pub timing: Option<Timings>,
}

pub struct InstanceView {
    pub url: Seq<char>,
    pub grade: Seq<char>,
    pub network_type: Seq<char>,
    pub timing: Option<Timings>,
}

pub struct FilterView {
    pub response_times: Option<Timings>,
    pub grades: Option<Seq<Seq<char>>>,
}

pub open spec fn strings_view(s: Seq<String>) -> Seq<Seq<char>> {
    s.map_values(|u: String| u@)
}

pub open spec fn directory_view(d: Seq<Instance>) -> Seq<InstanceView> {
    d.map_values(|i: Instance| i@)
}

impl View for Instance {
    type V = InstanceView;

    open spec fn view(&self) -> InstanceView {
        InstanceView {
            url: self.url@,
            grade: self.grade@,
            network_type: self.network_type@,
            timing: self.timing,
        }
    }
}

impl View for Filter {
    type V = FilterView;

    open spec fn view(&self) -> FilterView {
        FilterView {
            response_times: self.response_times,
            grades: match self.grades {
                Some(g) => Some(strings_view(g@)),
                None => None,
            },
        }
    }
}

pub open spec fn default_grades() -> Seq<Seq<char>> {
    seq!["C"@, "V"@]
}

pub open spec fn accepted_grades(f: FilterView) -> Seq<Seq<char>> {
    match f.grades {
        Some(g) => g,
        None => default_grades(),
    }
}

pub open spec fn grade_passes(i: InstanceView, f: FilterView) -> bool {
    accepted_grades(f).contains(i.grade)
}

pub open spec fn network_passes(i: InstanceView) -> bool {
    i.network_type == "normal"@
}

/// A probe without a ceiling passes; one with a ceiling needs a mean
/// strictly below it, and fails when the mean is missing.
pub open spec fn probe_passes(mean: Option<u64>, ceiling: Option<u64>) -> bool {
    match ceiling {
        None => true,
        Some(c) => match mean {
            Some(m) => m < c,
            None => false,
        },
    }
}

pub open spec fn no_timings() -> Timings {
    Timings { search: None, google: None, wikipedia: None, initial: None }
}

pub open spec fn reported_means(timing: Option<Timings>) -> Timings {
    match timing {
        Some(t) => t,
        None => no_timings(),
    }
}

pub open spec fn timings_pass(i: InstanceView, f: FilterView) -> bool {
    match f.response_times {
        None => true,
        Some(c) => {
            let m = reported_means(i.timing);
            &&& probe_passes(m.search, c.search)
            &&& probe_passes(m.google, c.google)
            &&& probe_passes(m.wikipedia, c.wikipedia)
            &&& probe_passes(m.initial, c.initial)
        },
    }
}

pub open spec fn passes(i: InstanceView, f: FilterView) -> bool {
    grade_passes(i, f) && timings_pass(i, f) && network_passes(i)
}

/// The URLs of the entries that pass, in directory order.
pub open spec fn filtered_urls(d: Seq<InstanceView>, f: FilterView) -> Seq<Seq<char>>
    decreases d.len(),
{
    if d.len() == 0 {
        Seq::empty()
    } else {
        let rest = filtered_urls(d.drop_last(), f);
        if passes(d.last(), f) {
            rest.push(d.last().url)
        } else {
            rest
        }
    }
}

pub open spec fn unique_urls(d: Seq<InstanceView>) -> bool {
    forall|i: int, j: int| 0 <= i < d.len() && 0 <= j < d.len() && i != j ==> d[i].url != d[j].url
}

fn contains_grade(grades: &Vec<String>, grade: &String) -> (r: bool)
    ensures
        r == strings_view(grades@).contains(grade@),
{
    let mut i: usize = 0;
    while i < grades.len()
        invariant
            i <= grades.len(),
            forall|k: int| 0 <= k < i ==> grades@[k]@ != grade@,
        decreases grades.len() - i,
    {
        if grades[i] == *grade {
            assert(strings_view(grades@)[i as int] == grade@);
            return true;
        }
        i += 1;
    }
    assert forall|k: int| 0 <= k < strings_view(grades@).len() implies strings_view(grades@)[k]
        != grade@ by {
        assert(grades@[k]@ != grade@);
    }
    false
}

/// Whether the entry's grade is one the filter accepts.
pub fn filter_by_grade(instance: &Instance, filter: &Filter) -> (r: bool)
    ensures
        r == grade_passes(instance@, filter@),
{
    match &filter.grades {
        Some(grades) => contains_grade(grades, &instance.grade),
        None => {
            let mut defaults: Vec<String> = Vec::new();
            defaults.push(String::from_str("C"));
            defaults.push(String::from_str("V"));
            assert(strings_view(defaults@) =~= default_grades());
            contains_grade(&defaults, &instance.grade)
        },
    }
}

/// Whether the entry reports the network type `normal`.
pub fn filter_by_network(instance: &Instance) -> (r: bool)
    ensures
        r == network_passes(instance@),
{
    let normal = String::from_str("normal");
    instance.network_type == normal
}

fn probe_ok(mean: Option<u64>, ceiling: Option<u64>) -> (r: bool)
    ensures
        r == probe_passes(mean, ceiling),
{
    match ceiling {
        None => true,
        Some(c) => match mean {
            Some(m) => m < c,
            None => false,
        },
    }
}

/// Whether each probe with a ceiling reports a mean below it.
pub fn filter_by_timings(instance: &Instance, filter: &Filter) -> (r: bool)
    ensures
        r == timings_pass(instance@, filter@),
{
    let ceilings = match filter.response_times {
        Some(times) => times,
        None => return true,
    };
    let means = match instance.timing {
        Some(t) => t,
        None => Timings { search: None, google: None, wikipedia: None, initial: None },
    };
    let search_ok = probe_ok(means.search, ceilings.search);
    let google_ok = probe_ok(means.google, ceilings.google);
    let wikipedia_ok = probe_ok(means.wikipedia, ceilings.wikipedia);
    let initial_ok = probe_ok(means.initial, ceilings.initial);
    initial_ok && search_ok && google_ok && wikipedia_ok
}

/// The URLs of the directory entries that pass the grade, timing and
/// network predicates, in directory order.
pub fn get_filtered_urls(instances: &Vec<Instance>, filter: &Filter) -> (r: Vec<String>)
    ensures
        strings_view(r@) == filtered_urls(directory_view(instances@), filter@),
{
    let mut urls: Vec<String> = Vec::new();
    let mut i: usize = 0;
    while i < instances.len()
        invariant
            i <= instances.len(),
            strings_view(urls@) == filtered_urls(
                directory_view(instances@.subrange(0, i as int)),
                filter@,
            ),
        decreases instances.len() - i,
    {
        let instance = &instances[i];
        let keep = filter_by_grade(instance, filter) && filter_by_timings(instance, filter)
            && filter_by_network(instance);
        let ghost before = urls@;
        if keep {
            urls.push(instance.url.clone());
        }
        proof {
            let d = directory_view(instances@.subrange(0, i + 1));
            assert(d.drop_last() =~= directory_view(instances@.subrange(0, i as int)));
            assert(d.last() == instance@);
            if keep {
                assert(strings_view(urls@) =~= strings_view(before).push(instance.url@));
            }
        }
        i += 1;
    }
    assert(instances@.subrange(0, instances.len() as int) =~= instances@);
    urls
}

proof fn lemma_filtered_membership(d: Seq<InstanceView>, f: FilterView, u: Seq<char>)
    ensures
        filtered_urls(d, f).contains(u) <==> exists|i: int|
            0 <= i < d.len() && #[trigger] d[i].url == u && passes(d[i], f),
    decreases d.len(),
{
    if d.len() > 0 {
        let rest = d.drop_last();
        lemma_filtered_membership(rest, f, u);
        let r = filtered_urls(rest, f);
        if filtered_urls(d, f).contains(u) {
            if passes(d.last(), f) && u == d.last().url {
                assert(d[d.len() - 1].url == u);
            } else {
                if passes(d.last(), f) {
                    let k = choose|k: int| 0 <= k < r.push(d.last().url).len() && r.push(
                        d.last().url,
                    )[k] == u;
                    assert(k < r.len());
                    assert(r[k] == u);
                }
                assert(r.contains(u));
                let i = choose|i: int| 0 <= i < rest.len() && #[trigger] rest[i].url == u && passes(
                    rest[i],
                    f,
                );
                assert(d[i] == rest[i]);
            }
        }
        if exists|i: int| 0 <= i < d.len() && #[trigger] d[i].url == u && passes(d[i], f) {
            let i = choose|i: int| 0 <= i < d.len() && #[trigger] d[i].url == u && passes(d[i], f);
            if i == d.len() - 1 {
                assert(filtered_urls(d, f) == r.push(u));
                assert(r.push(u)[r.len() as int] == u);
            } else {
                assert(rest[i] == d[i]);
                assert(r.contains(u));
                let k = choose|k: int| 0 <= k < r.len() && r[k] == u;
                if passes(d.last(), f) {
                    assert(r.push(d.last().url)[k] == u);
                }
            }
        }
    }
}

/// The filter invents no URL: each one it returns belongs to a directory
/// entry that passes every predicate. When the directory's URLs are
/// distinct, as the keys of a mapping are, an entry's URL is returned exactly
/// when the entry passes, so an entry whose grade is not accepted, whose
/// network type is not `normal`, or whose mean on a probe with a ceiling is
/// missing or not below it, is left out.
pub proof fn lemma_filter_keeps_only_passing(d: Seq<InstanceView>, f: FilterView)
    ensures
        forall|u: Seq<char>| #[trigger]
            filtered_urls(d, f).contains(u) ==> exists|i: int|
                0 <= i < d.len() && #[trigger] d[i].url == u && passes(d[i], f),
        unique_urls(d) ==> forall|i: int|
            0 <= i < d.len() ==> (#[trigger] filtered_urls(d, f).contains(d[i].url) <==> passes(
                d[i],
                f,
            )),
{
    assert forall|u: Seq<char>| #[trigger] filtered_urls(d, f).contains(u) implies exists|i: int|
        0 <= i < d.len() && #[trigger] d[i].url == u && passes(d[i], f) by {
        lemma_filtered_membership(d, f, u);
    }
    if unique_urls(d) {
        assert forall|i: int| 0 <= i < d.len() implies (#[trigger] filtered_urls(
            d,
            f,
        ).contains(d[i].url) <==> passes(d[i], f)) by {
            lemma_filtered_membership(d, f, d[i].url);
            if filtered_urls(d, f).contains(d[i].url) {
                let j = choose|j: int|
                    0 <= j < d.len() && #[trigger] d[j].url == d[i].url && passes(d[j], f);
                assert(j == i);
            }
        }
    }
}

/// The filter is a function of what its inputs hold: two directories and two
/// filters with the same contents give the same URLs.
pub proof fn lemma_filter_deterministic(d1: Seq<Instance>, f1: Filter, d2: Seq<Instance>, f2: Filter)
    requires
        directory_view(d1) == directory_view(d2),
        f1@ == f2@,
    ensures
        filtered_urls(directory_view(d1), f1@) == filtered_urls(directory_view(d2), f2@),
{
}

/// An entry without a timing object passes the timing predicate exactly when
/// no probe has a ceiling.
pub proof fn lemma_missing_timing(i: InstanceView, f: FilterView)
    requires
        i.timing is None,
    ensures
        timings_pass(i, f) <==> match f.response_times {
            None => true,
            Some(c) => c.search is None && c.google is None && c.wikipedia is None
                && c.initial is None,
        },
{
}

} // verus!

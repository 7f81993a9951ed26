//! Report logic of the binding-coverage tool: which FMOD C functions the
//! bindings cover, grouped by category.
//!
//! Function names come from the FMOD headers. A name's category is read with
//! the regular expression `FMOD_(Studio_)?([A-Za-z0-9]*)_.*$`; a `Channel` or
//! `ChannelGroup` function is left out of the report when the
//! `ChannelControl` function it stands for is known, which is found with
//! `FMOD_(Channel|ChannelGroup)_(.*)$`. The `regex` crate does the matching.

use vstd::prelude::*;
use vstd::string::StringExecFns;

use crate::index_collections::{
    category_at, category_count, category_items, function_at, function_count, function_entries,
    has_function, has_key, insert_category, insert_function, is_stable_sort_by_category, key_position,
    keys_distinct, new_category_set, new_function_map, sort_by_category, CategorySet, FunctionMap,
};
use crate::patterns::{
    groups_view, pattern_captures, pattern_is_match, pattern_replace, regex_captures,
    regex_is_match, regex_is_valid, regex_replace, Pattern,
};

verus! {

/// The pattern that reads a function's category from its name.
pub const CATEGORY_PATTERN: &'static str = "FMOD_(Studio_)?([A-Za-z0-9]*)_.*$";

/// The pattern that finds `Channel` and `ChannelGroup` functions.
pub const CHANNEL_FILTER_PATTERN: &'static str = "FMOD_(Channel|ChannelGroup)_(.*)$";

/// What a `Channel` or `ChannelGroup` function name becomes: the name of the
/// `ChannelControl` function it stands for.
pub const CHANNEL_CONTROL_REPLACEMENT: &'static str = "FMOD_ChannelControl_$2";

/// Whether the category pattern's captures hold a second group wherever the
/// pattern matched.
pub open spec fn has_second_group(groups: Option<Seq<Option<Seq<char>>>>) -> bool {
    groups matches Some(g) ==> g.len() > 2 && g[2] is Some
}

/// The category that the captures of the category pattern give:
/// `Studio <group 2>` where the first group took part, group 2 alone where it
/// did not, and `Unknown` where the pattern did not match.
pub open spec fn category_from_groups(groups: Option<Seq<Option<Seq<char>>>>) -> Seq<char> {
    match groups {
        Some(g) => if g.len() > 1 && g[1] is Some {
            "Studio "@ + g[2]->0
        } else {
            g[2]->0
        },
        None => "Unknown"@,
    }
}

/// The category of an FMOD function name.
pub open spec fn spec_category(name: Seq<char>) -> Seq<char> {
    category_from_groups(regex_captures(CATEGORY_PATTERN@, name))
}

/// The category that the captures of the category pattern give (see
/// [`category_from_groups`]).
pub fn category_from_captures(captures: Option<Vec<Option<String>>>) -> (res: String)
    requires
        has_second_group(groups_view(captures)),
    ensures
        res@ == category_from_groups(groups_view(captures)),
{
    let ghost view = groups_view(captures);
    match captures {
        Some(groups) => {
            proof {
                assert(view->0[2] is Some);
            }
            let studio = groups.len() > 1 && groups[1].is_some();
            let group = groups[2].as_ref().unwrap();
            proof {
                assert(view->0[2]->0 == group@);
                assert(studio == (view->0.len() > 1 && view->0[1] is Some));
            }
            if studio {
                String::from_str("Studio ").concat(group.as_str())
            } else {
                String::from_str(group.as_str())
            }
        },
        None => String::from_str("Unknown"),
    }
}

/// The category of an FMOD function name, read with the category pattern;
/// `None` where the pattern matched without a second group (the name has no
/// category then).
pub fn category_of(pattern: &Pattern, name: &str) -> (res: Option<String>)
    requires
        pattern.source() == CATEGORY_PATTERN@,
    ensures
        res is Some <==> has_second_group(regex_captures(CATEGORY_PATTERN@, name@)),
        res matches Some(c) ==> c@ == spec_category(name@),
{
    let captures = pattern_captures(pattern, name);
    let ghost view = groups_view(captures);
    let known = match &captures {
        Some(groups) => groups.len() > 2 && groups[2].is_some(),
        None => true,
    };
    proof {
        if captures is Some {
            assert(known == (view->0.len() > 2 && view->0[2] is Some));
        }
    }
    if known {
        Some(category_from_captures(captures))
    } else {
        None
    }
}

/// For a `Channel` or `ChannelGroup` function, the name of the
/// `ChannelControl` function it stands for: the first match of the channel
/// pattern replaced by `FMOD_ChannelControl_` and its second group.
pub open spec fn spec_channel_control_name(name: Seq<char>) -> Option<Seq<char>> {
    if regex_is_match(CHANNEL_FILTER_PATTERN@, name) {
        Some(regex_replace(CHANNEL_FILTER_PATTERN@, name, CHANNEL_CONTROL_REPLACEMENT@))
    } else {
        None
    }
}

/// For a `Channel` or `ChannelGroup` function, the name of the
/// `ChannelControl` function it stands for (see
/// [`spec_channel_control_name`]); `None` for any other name.
pub fn channel_control_name(filter: &Pattern, name: &str) -> (res: Option<String>)
    requires
        filter.source() == CHANNEL_FILTER_PATTERN@,
    ensures
        match res {
            Some(r) => spec_channel_control_name(name@) == Some(r@),
            None => spec_channel_control_name(name@) is None,
        },
{
    if pattern_is_match(filter, name) {
        Some(pattern_replace(filter, name, CHANNEL_CONTROL_REPLACEMENT))
    } else {
        None
    }
}

/// The views of a sequence of strings.
pub open spec fn views(names: Seq<String>) -> Seq<Seq<char>> {
    names.map_values(|s: String| s@)
}

/// The categories of `names`, each once, in the order they first appear.
pub open spec fn spec_categories(names: Seq<Seq<char>>) -> Seq<Seq<char>>
    decreases names.len(),
{
    if names.len() == 0 {
        Seq::empty()
    } else {
        let prev = spec_categories(names.drop_last());
        let c = spec_category(names.last());
        if prev.contains(c) {
            prev
        } else {
            prev.push(c)
        }
    }
}

/// The index at which `s` holds `x` (meaningful where it does).
pub open spec fn position_in(s: Seq<Seq<char>>, x: Seq<char>) -> int {
    choose|i: int| 0 <= i < s.len() && s[i] == x
}

/// The function entries of `names` before sorting: each name once, in the
/// order it first appears, with the index of its category and `false`; a
/// name seen again has its entry rewritten in place.
pub open spec fn spec_collected(names: Seq<Seq<char>>) -> Seq<(Seq<char>, (usize, bool))>
    decreases names.len(),
{
    if names.len() == 0 {
        Seq::empty()
    } else {
        let prev = spec_collected(names.drop_last());
        let name = names.last();
        let value = (position_in(spec_categories(names), spec_category(name)) as usize, false);
        if has_key(prev, name) {
            prev.update(key_position(prev, name), (name, value))
        } else {
            prev.push((name, value))
        }
    }
}

/// Why `collect` could not collect the functions.
#[derive(Debug)]
pub enum CollectError {
    /// The category pattern did not compile.
    Pattern(regex::Error),
    /// The category pattern matched this name without a second group.
    MissingCategory(String),
}

/// Whether every name has a category.
pub open spec fn all_have_categories(names: Seq<Seq<char>>) -> bool {
    forall|i: int| 0 <= i < names.len() ==> has_second_group(
        #[trigger] regex_captures(CATEGORY_PATTERN@, names[i]),
    )
}

/// Collects the FMOD C functions that the headers declare: the categories of
/// their names, each once in order of first appearance, and each name with
/// its category's index and `false` (not yet known to be covered), sorted by
/// category, stably. Fails where the category pattern does not compile, and
/// at the first name without a category.
pub fn collect(function_names: &Vec<String>) -> (res: Result<(CategorySet, FunctionMap), CollectError>)
    ensures
        res is Ok <==> regex_is_valid(CATEGORY_PATTERN@) && all_have_categories(
            views(function_names@),
        ),
        res matches Err(CollectError::Pattern(_)) ==> !regex_is_valid(CATEGORY_PATTERN@),
        res matches Err(CollectError::MissingCategory(name)) ==> regex_is_valid(CATEGORY_PATTERN@)
            && exists|i: int|
            0 <= i < function_names@.len() && function_names@[i]@ == name@ && !has_second_group(
                regex_captures(CATEGORY_PATTERN@, function_names@[i]@),
            ) && all_have_categories(#[trigger] views(function_names@).take(i)),
        res matches Ok((categories, functions)) ==> {
            &&& category_items(categories) == spec_categories(views(function_names@))
            &&& is_stable_sort_by_category(
                spec_collected(views(function_names@)),
                function_entries(functions),
            )
            &&& keys_distinct(function_entries(functions))
        },
{
    let pattern = match Pattern::new(CATEGORY_PATTERN) {
        Ok(p) => p,
        Err(e) => return Err(CollectError::Pattern(e)),
    };
    let ghost all = views(function_names@);
    let mut categories = new_category_set();
    let mut functions = new_function_map();
    let mut i: usize = 0;
    assert(all.take(0) =~= Seq::<Seq<char>>::empty());
    while i < function_names.len()
        invariant
            all == views(function_names@),
            pattern.source() == CATEGORY_PATTERN@,
            regex_is_valid(CATEGORY_PATTERN@),
            0 <= i <= function_names@.len(),
            all_have_categories(all.take(i as int)),
            category_items(categories) == spec_categories(all.take(i as int)),
            category_items(categories).no_duplicates(),
            function_entries(functions) == spec_collected(all.take(i as int)),
        decreases function_names.len() - i,
    {
        let name = &function_names[i];
        let ghost prefix = all.take(i + 1);
        assert(prefix.drop_last() =~= all.take(i as int));
        assert(prefix.last() == name@);
        assert(all[i as int] == name@);
        let category = match category_of(&pattern, name.as_str()) {
            Some(c) => c,
            None => return Err(CollectError::MissingCategory(name.clone())),
        };
        proof {
            assert forall|k: int| 0 <= k < prefix.len() implies has_second_group(
                #[trigger] regex_captures(CATEGORY_PATTERN@, prefix[k]),
            ) by {
                if k < i {
                    assert(prefix[k] == all.take(i as int)[k]);
                }
            }
        }
        let ghost before = category_items(categories);
        let (index, _) = insert_category(&mut categories, category);
        proof {
            let after = category_items(categories);
            let c = spec_category(name@);
            assert(category@ == c);
            if before.contains(c) {
                assert(after[index as int] == c);
            } else {
                assert(after[index as int] == c);
            }
            assert(after == spec_categories(prefix));
            let p = position_in(after, spec_category(name@));
            assert(0 <= p < after.len() && after[p] == spec_category(name@));
            assert(p == index);
        }
        insert_function(&mut functions, name.clone(), (index, false));
        i = i + 1;
    }
    assert(all.take(i as int) =~= all);
    sort_by_category(&mut functions);
    Ok((categories, functions))
}

/// Whether a function goes in the report: all but the `Channel` and
/// `ChannelGroup` functions whose `ChannelControl` function is known.
pub open spec fn is_reported(name: Seq<char>, entries: Seq<(Seq<char>, (usize, bool))>) -> bool {
    match spec_channel_control_name(name) {
        Some(control) => !has_key(entries, control),
        None => true,
    }
}

/// `## ` followed by the category.
pub open spec fn category_line(category: Seq<char>) -> Seq<char> {
    seq!['#', '#', ' '] + category
}

/// `- [x] ` or `- [ ] ` followed by the function's name.
pub open spec fn function_line(name: Seq<char>, covered: bool) -> Seq<char> {
    seq!['-', ' ', '[', if covered { 'x' } else { ' ' }, ']', ' '] + name
}

/// The report lines from entry `i` on, when the last category heading was
/// for category `current`: a heading wherever the category changes, then a
/// line for each reported function.
pub open spec fn report_from(
    categories: Seq<Seq<char>>,
    entries: Seq<(Seq<char>, (usize, bool))>,
    i: int,
    current: usize,
) -> Seq<Seq<char>>
    decreases entries.len() - i,
{
    if i < 0 || i >= entries.len() {
        Seq::empty()
    } else {
        let name = entries[i].0;
        let category = entries[i].1.0;
        let covered = entries[i].1.1;
        if !is_reported(name, entries) {
            report_from(categories, entries, i + 1, current)
        } else if category != current {
            seq![category_line(categories[category as int]), function_line(name, covered)]
                + report_from(categories, entries, i + 1, category)
        } else {
            seq![function_line(name, covered)] + report_from(categories, entries, i + 1, current)
        }
    }
}

/// Whether every heading that the report from entry `i` on needs names a
/// category that the set holds.
pub open spec fn headings_known_from(
    categories: Seq<Seq<char>>,
    entries: Seq<(Seq<char>, (usize, bool))>,
    i: int,
    current: usize,
) -> bool
    decreases entries.len() - i,
{
    if i < 0 || i >= entries.len() {
        true
    } else {
        let name = entries[i].0;
        let category = entries[i].1.0;
        if !is_reported(name, entries) {
            headings_known_from(categories, entries, i + 1, current)
        } else if category != current {
            category < categories.len() && headings_known_from(categories, entries, i + 1, category)
        } else {
            headings_known_from(categories, entries, i + 1, current)
        }
    }
}

/// A line of the coverage report.
#[derive(Debug, Clone, PartialEq, Eq)]
pub enum ReportLine {
    /// A heading for the functions of a category.
    Category(String),
    /// A function, and whether the bindings cover it.
    Function { name: String, covered: bool },
}

impl ReportLine {
    /// The line as Markdown.
    pub open spec fn spec_markdown(&self) -> Seq<char> {
        match self {
            ReportLine::Category(c) => category_line(c@),
            ReportLine::Function { name, covered } => function_line(name@, *covered),
        }
    }

    /// The line as Markdown: `## <category>`, or `- [x] <name>` for a
    /// covered function and `- [ ] <name>` for another.
    pub fn to_markdown(&self) -> (res: String)
        ensures
            res@ == self.spec_markdown(),
    {
        match self {
            ReportLine::Category(c) => {
                let head = String::from_str("## ");
                proof {
                    reveal_strlit("## ");
                    assert("## "@ =~= seq!['#', '#', ' ']);
                }
                head.concat(c.as_str())
            },
            ReportLine::Function { name, covered } => {
                let head = if *covered {
                    proof {
                        reveal_strlit("- [x] ");
                        assert("- [x] "@ =~= seq!['-', ' ', '[', 'x', ']', ' ']);
                    }
                    String::from_str("- [x] ")
                } else {
                    proof {
                        reveal_strlit("- [ ] ");
                        assert("- [ ] "@ =~= seq!['-', ' ', '[', ' ', ']', ' ']);
                    }
                    String::from_str("- [ ] ")
                };
                head.concat(name.as_str())
            },
        }
    }
}

/// The Markdown of each line.
pub open spec fn markdown_of(lines: Seq<ReportLine>) -> Seq<Seq<char>> {
    lines.map_values(|l: ReportLine| l.spec_markdown())
}

/// The coverage report of the functions: in their order, a heading wherever
/// the category changes, then a line for each function, leaving out each
/// `Channel` or `ChannelGroup` function whose `ChannelControl` function is
/// in the map. Every heading needed must name a category of the set (else
/// there is nothing to print for it).
pub fn coverage_report(
    channel_filter: &Pattern,
    categories: &CategorySet,
    c_functions: &FunctionMap,
) -> (res: Vec<ReportLine>)
    requires
        channel_filter.source() == CHANNEL_FILTER_PATTERN@,
        headings_known_from(
            category_items(*categories),
            function_entries(*c_functions),
            0,
            usize::MAX,
        ),
    ensures
        markdown_of(res@) == report_from(
            category_items(*categories),
            function_entries(*c_functions),
            0,
            usize::MAX,
        ),
{
    let ghost cats = category_items(*categories);
    let ghost entries = function_entries(*c_functions);
    let mut out: Vec<ReportLine> = Vec::new();
    let mut current: usize = usize::MAX;
    let n = function_count(c_functions);
    let mut i: usize = 0;
    while i < n
        invariant
            channel_filter.source() == CHANNEL_FILTER_PATTERN@,
            cats == category_items(*categories),
            entries == function_entries(*c_functions),
            n == entries.len(),
            0 <= i <= n,
            markdown_of(out@) + report_from(cats, entries, i as int, current) == report_from(
                cats,
                entries,
                0,
                usize::MAX,
            ),
            headings_known_from(cats, entries, i as int, current),
        decreases n - i,
    {
        let (name, value) = function_at(c_functions, i).unwrap();
        let category = value.0;
        let covered = value.1;
        let reported = match channel_control_name(channel_filter, name.as_str()) {
            Some(control) => !has_function(c_functions, control.as_str()),
            None => true,
        };
        let ghost before = markdown_of(out@);
        let ghost prev_current = current;
        if reported {
            if category != current {
                let heading = category_at(categories, category).unwrap().clone();
                out.push(ReportLine::Category(heading));
                current = category;
            }
            out.push(ReportLine::Function { name: name.clone(), covered: covered });
        }
        proof {
            let rest = report_from(cats, entries, i + 1, current);
            assert(reported == is_reported(name@, entries));
            assert(markdown_of(out@) + rest =~= before + report_from(
                cats,
                entries,
                i as int,
                prev_current,
            ));
        }
        i = i + 1;
    }
    out
}


/// Whether every heading that the coverage report needs names a category of
/// the set (see [`headings_known_from`]).
pub fn headings_known(
    channel_filter: &Pattern,
    categories: &CategorySet,
    c_functions: &FunctionMap,
) -> (res: bool)
    requires
        channel_filter.source() == CHANNEL_FILTER_PATTERN@,
    ensures
        res == headings_known_from(
            category_items(*categories),
            function_entries(*c_functions),
            0,
            usize::MAX,
        ),
{
    let ghost cats = category_items(*categories);
    let ghost entries = function_entries(*c_functions);
    let category_total = category_count(categories);
    let n = function_count(c_functions);
    let mut current: usize = usize::MAX;
    let mut i: usize = 0;
    while i < n
        invariant
            channel_filter.source() == CHANNEL_FILTER_PATTERN@,
            cats == category_items(*categories),
            entries == function_entries(*c_functions),
            n == entries.len(),
            category_total == cats.len(),
            0 <= i <= n,
            headings_known_from(cats, entries, 0, usize::MAX) == headings_known_from(
                cats,
                entries,
                i as int,
                current,
            ),
        decreases n - i,
    {
        let (name, value) = function_at(c_functions, i).unwrap();
        let reported = match channel_control_name(channel_filter, name.as_str()) {
            Some(control) => !has_function(c_functions, control.as_str()),
            None => true,
        };
        if reported && value.0 != current {
            if value.0 >= category_total {
                return false;
            }
            current = value.0;
        }
        i = i + 1;
    }
    true
}

/// The coverage report of the functions (see [`coverage_report`]), with
/// the channel pattern compiled here: `Err` where it does not compile,
/// `Ok(None)` where a heading the report needs names no category of the set.
pub fn try_coverage_report(categories: &CategorySet, c_functions: &FunctionMap) -> (res: Result<
    Option<Vec<ReportLine>>,
    regex::Error,
>)
    ensures
        res is Ok <==> regex_is_valid(CHANNEL_FILTER_PATTERN@),
        res matches Ok(r) ==> (r is Some <==> headings_known_from(
            category_items(*categories),
            function_entries(*c_functions),
            0,
            usize::MAX,
        )),
        res matches Ok(Some(lines)) ==> markdown_of(lines@) == report_from(
            category_items(*categories),
            function_entries(*c_functions),
            0,
            usize::MAX,
        ),
{
    let channel_filter = match Pattern::new(CHANNEL_FILTER_PATTERN) {
        Ok(p) => p,
        Err(e) => return Err(e),
    };
    if headings_known(&channel_filter, categories, c_functions) {
        Ok(Some(coverage_report(&channel_filter, categories, c_functions)))
    } else {
        Ok(None)
    }
}

proof fn lemma_categories_short(names: Seq<Seq<char>>)
    ensures
        spec_categories(names).len() <= names.len(),
        spec_categories(names).contains(spec_category(names.last())) || names.len() == 0,
    decreases names.len(),
{
    if names.len() > 0 {
        lemma_categories_short(names.drop_last());
        let prev = spec_categories(names.drop_last());
        let c = spec_category(names.last());
        if !prev.contains(c) {
            assert(prev.push(c)[prev.len() as int] == c);
        }
    }
}

proof fn lemma_collected_in_range(names: Seq<Seq<char>>)
    requires
        names.len() <= usize::MAX,
    ensures
        forall|k: int|
            0 <= k < spec_collected(names).len() ==> (spec_collected(names)[k].1.0 as int)
                < spec_categories(names).len(),
    decreases names.len(),
{
    if names.len() > 0 {
        let shorter = names.drop_last();
        lemma_collected_in_range(shorter);
        lemma_categories_short(names);
        let cats = spec_categories(names);
        let c = spec_category(names.last());
        let p = position_in(cats, c);
        assert(0 <= p < cats.len() && cats[p] == c);
        assert(spec_categories(shorter).len() <= cats.len());
        let prev = spec_collected(shorter);
        let name = names.last();
        if has_key(prev, name) {
            let j = key_position(prev, name);
            assert(0 <= j < prev.len() && prev[j].0 == name);
        }
    }
}

proof fn lemma_headings_in_range(
    categories: Seq<Seq<char>>,
    entries: Seq<(Seq<char>, (usize, bool))>,
    i: int,
    current: usize,
)
    requires
        forall|k: int| 0 <= k < entries.len() ==> (entries[k].1.0 as int) < categories.len(),
    ensures
        headings_known_from(categories, entries, i, current),
    decreases entries.len() - i,
{
    if 0 <= i < entries.len() {
        lemma_headings_in_range(categories, entries, i + 1, current);
        lemma_headings_in_range(categories, entries, i + 1, entries[i].1.0);
    }
}

/// Law: every category index that `collect` gives names a category of the
/// set it gives, so the coverage report of what `collect` gives has every
/// heading it needs.
pub proof fn law_collected_report_has_headings(
    names: Seq<Seq<char>>,
    sorted: Seq<(Seq<char>, (usize, bool))>,
)
    requires
        names.len() <= usize::MAX,
        is_stable_sort_by_category(spec_collected(names), sorted),
    ensures
        forall|k: int|
            0 <= k < sorted.len() ==> (sorted[k].1.0 as int) < spec_categories(names).len(),
        headings_known_from(spec_categories(names), sorted, 0, usize::MAX),
{
    broadcast use vstd::seq_lib::group_to_multiset_ensures;

    let before = spec_collected(names);
    lemma_collected_in_range(names);
    assert forall|k: int| 0 <= k < sorted.len() implies (sorted[k].1.0 as int) < spec_categories(
        names,
    ).len() by {
        assert(sorted.contains(sorted[k]));
        assert(sorted.to_multiset().count(sorted[k]) > 0);
        assert(before.contains(sorted[k]));
    }
    lemma_headings_in_range(spec_categories(names), sorted, 0, usize::MAX);
}


/// The headings among report lines: the lines that start with `#`.
pub open spec fn headings_of(lines: Seq<Seq<char>>) -> Seq<Seq<char>> {
    lines.filter(|l: Seq<char>| l.len() > 0 && l[0] == '#')
}

/// The categories whose headings the report prints from entry `i` on.
pub open spec fn heading_categories_from(
    entries: Seq<(Seq<char>, (usize, bool))>,
    i: int,
    current: usize,
) -> Seq<usize>
    decreases entries.len() - i,
{
    if i < 0 || i >= entries.len() {
        Seq::empty()
    } else {
        let category = entries[i].1.0;
        if !is_reported(entries[i].0, entries) {
            heading_categories_from(entries, i + 1, current)
        } else if category != current {
            seq![category] + heading_categories_from(entries, i + 1, category)
        } else {
            heading_categories_from(entries, i + 1, current)
        }
    }
}

proof fn lemma_headings_are_heading_categories(
    categories: Seq<Seq<char>>,
    entries: Seq<(Seq<char>, (usize, bool))>,
    i: int,
    current: usize,
)
    ensures
        headings_of(report_from(categories, entries, i, current)) == heading_categories_from(
            entries,
            i,
            current,
        ).map_values(|c: usize| category_line(categories[c as int])),
    decreases entries.len() - i,
{
    let pred = |l: Seq<char>| l.len() > 0 && l[0] == '#';
    reveal(Seq::filter);
    if i < 0 || i >= entries.len() {
        assert(Seq::<Seq<char>>::empty().filter(pred) =~= Seq::<Seq<char>>::empty());
        assert(heading_categories_from(entries, i, current).map_values(
            |c: usize| category_line(categories[c as int]),
        ) =~= Seq::<Seq<char>>::empty());
    } else {
        let name = entries[i].0;
        let category = entries[i].1.0;
        let covered = entries[i].1.1;
        let f = function_line(name, covered);
        assert(!pred(f));
        if !is_reported(name, entries) {
            lemma_headings_are_heading_categories(categories, entries, i + 1, current);
        } else if category != current {
            lemma_headings_are_heading_categories(categories, entries, i + 1, category);
            let h = category_line(categories[category as int]);
            assert(pred(h));
            let front = seq![h, f];
            let rest = report_from(categories, entries, i + 1, category);
            assert(report_from(categories, entries, i, current) == front + rest);
            Seq::filter_distributes_over_add(front, rest, pred);
            let single = seq![h];
            let none = Seq::<Seq<char>>::empty();
            assert(front.drop_last() =~= single);
            assert(front.last() == f);
            assert(single.drop_last() =~= none);
            assert(single.last() == h);
            assert(none.filter(pred) == none);
            assert(single.filter(pred) == none.filter(pred).push(h));
            assert(single.filter(pred) =~= single);
            assert(front.filter(pred) == single.filter(pred));
            let tail = heading_categories_from(entries, i + 1, category);
            assert((seq![category] + tail).map_values(|c: usize| category_line(categories[c as int]))
                =~= seq![h] + tail.map_values(|c: usize| category_line(categories[c as int])));
        } else {
            lemma_headings_are_heading_categories(categories, entries, i + 1, current);
            let front = seq![f];
            let rest = report_from(categories, entries, i + 1, current);
            assert(report_from(categories, entries, i, current) == front + rest);
            Seq::filter_distributes_over_add(front, rest, pred);
            let none = Seq::<Seq<char>>::empty();
            assert(front.drop_last() =~= none);
            assert(front.last() == f);
            assert(none.filter(pred) == none);
            assert(front.filter(pred) == none.filter(pred));
            assert(front.filter(pred) + rest.filter(pred) =~= rest.filter(pred));
        }
    }
}

proof fn lemma_heading_categories_increase(
    entries: Seq<(Seq<char>, (usize, bool))>,
    i: int,
    current: usize,
)
    requires
        0 <= i,
        forall|j: int, k: int| i <= j <= k < entries.len() ==> entries[j].1.0 <= entries[k].1.0,
        forall|j: int| i <= j < entries.len() ==> entries[j].1.0 < usize::MAX,
        current == usize::MAX || forall|j: int| i <= j < entries.len() ==> current
            <= entries[j].1.0,
    ensures
        forall|a: int, b: int|
            0 <= a < b < heading_categories_from(entries, i, current).len() ==> heading_categories_from(
                entries,
                i,
                current,
            )[a] < heading_categories_from(entries, i, current)[b],
        current != usize::MAX ==> forall|a: int|
            0 <= a < heading_categories_from(entries, i, current).len() ==> current
                < heading_categories_from(entries, i, current)[a],
    decreases entries.len() - i,
{
    if i < entries.len() {
        let category = entries[i].1.0;
        if !is_reported(entries[i].0, entries) || category == current {
            lemma_heading_categories_increase(entries, i + 1, current);
            assert(heading_categories_from(entries, i, current) == heading_categories_from(
                entries,
                i + 1,
                current,
            ));
        } else {
            lemma_heading_categories_increase(entries, i + 1, category);
            let tail = heading_categories_from(entries, i + 1, category);
            let hs = seq![category] + tail;
            assert(heading_categories_from(entries, i, current) == hs);
            assert forall|a: int, b: int| 0 <= a < b < hs.len() implies hs[a] < hs[b] by {
                if a == 0 {
                    assert(hs[b] == tail[b - 1]);
                } else {
                    assert(hs[a] == tail[a - 1] && hs[b] == tail[b - 1]);
                }
            }
            if current != usize::MAX {
                assert forall|a: int| 0 <= a < hs.len() implies current < hs[a] by {
                    if a > 0 {
                        assert(hs[a] == tail[a - 1]);
                    }
                }
            }
        }
    }
}

proof fn lemma_categories_distinct(names: Seq<Seq<char>>)
    ensures
        spec_categories(names).no_duplicates(),
    decreases names.len(),
{
    if names.len() > 0 {
        lemma_categories_distinct(names.drop_last());
    }
}

/// Law: in the coverage report of what `collect` gives, no heading appears
/// twice; the functions of each category stand together under one heading.
pub proof fn law_collected_report_headings_unique(
    names: Seq<Seq<char>>,
    sorted: Seq<(Seq<char>, (usize, bool))>,
)
    requires
        names.len() <= usize::MAX,
        is_stable_sort_by_category(spec_collected(names), sorted),
    ensures
        headings_of(report_from(spec_categories(names), sorted, 0, usize::MAX)).no_duplicates(),
{
    let cats = spec_categories(names);
    law_collected_report_has_headings(names, sorted);
    lemma_categories_short(names);
    lemma_categories_distinct(names);
    lemma_heading_categories_increase(sorted, 0, usize::MAX);
    lemma_headings_are_heading_categories(cats, sorted, 0, usize::MAX);
    let hs = heading_categories_from(sorted, 0, usize::MAX);
    let lines = hs.map_values(|c: usize| category_line(cats[c as int]));
    assert forall|a: int, b: int| 0 <= a < lines.len() && 0 <= b < lines.len() && a != b implies lines[a]
        != lines[b] by {
        let (x, y) = if a < b {
            (a, b)
        } else {
            (b, a)
        };
        assert(hs[x] < hs[y]);
        lemma_heading_category_known(sorted, 0, usize::MAX, x);
        lemma_heading_category_known(sorted, 0, usize::MAX, y);
        assert(cats[hs[x] as int] != cats[hs[y] as int]);
        if lines[x] == lines[y] {
            assert(lines[x].subrange(3, lines[x].len() as int) =~= cats[hs[x] as int]);
            assert(lines[y].subrange(3, lines[y].len() as int) =~= cats[hs[y] as int]);
        }
    }
}

proof fn lemma_heading_category_known(
    entries: Seq<(Seq<char>, (usize, bool))>,
    i: int,
    current: usize,
    a: int,
)
    requires
        0 <= a < heading_categories_from(entries, i, current).len(),
    ensures
        exists|j: int|
            i <= j < entries.len() && 0 <= j && entries[j].1.0 == heading_categories_from(
                entries,
                i,
                current,
            )[a],
    decreases entries.len() - i,
{
    if 0 <= i < entries.len() {
        let category = entries[i].1.0;
        if !is_reported(entries[i].0, entries) || category == current {
            lemma_heading_category_known(entries, i + 1, current, a);
        } else if a > 0 {
            lemma_heading_category_known(entries, i + 1, category, a - 1);
        }
    }
}


/// The lines of a report that are no headings: the function lines.
pub open spec fn function_lines_of(lines: Seq<Seq<char>>) -> Seq<Seq<char>> {
    lines.filter(|l: Seq<char>| !(l.len() > 0 && l[0] == '#'))
}

/// One line per reported function from entry `i` on, in order: `- [x] `
/// and the name where that function's own flag says it is covered, and
/// `- [ ] ` and the name where it does not.
pub open spec fn function_lines_from(entries: Seq<(Seq<char>, (usize, bool))>, i: int) -> Seq<
    Seq<char>,
>
    decreases entries.len() - i,
{
    if i < 0 || i >= entries.len() {
        Seq::empty()
    } else {
        let rest = function_lines_from(entries, i + 1);
        if is_reported(entries[i].0, entries) {
            seq![function_line(entries[i].0, entries[i].1.1)] + rest
        } else {
            rest
        }
    }
}

proof fn lemma_function_lines(
    categories: Seq<Seq<char>>,
    entries: Seq<(Seq<char>, (usize, bool))>,
    i: int,
    current: usize,
)
    ensures
        function_lines_of(report_from(categories, entries, i, current)) == function_lines_from(
            entries,
            i,
        ),
    decreases entries.len() - i,
{
    let pred = |l: Seq<char>| !(l.len() > 0 && l[0] == '#');
    reveal(Seq::filter);
    let none = Seq::<Seq<char>>::empty();
    if i < 0 || i >= entries.len() {
        assert(none.filter(pred) =~= none);
    } else {
        let name = entries[i].0;
        let category = entries[i].1.0;
        let covered = entries[i].1.1;
        let f = function_line(name, covered);
        assert(pred(f));
        if !is_reported(name, entries) {
            lemma_function_lines(categories, entries, i + 1, current);
        } else if category != current {
            lemma_function_lines(categories, entries, i + 1, category);
            let h = category_line(categories[category as int]);
            assert(!pred(h));
            let front = seq![h, f];
            let rest = report_from(categories, entries, i + 1, category);
            assert(report_from(categories, entries, i, current) == front + rest);
            Seq::filter_distributes_over_add(front, rest, pred);
            let single = seq![h];
            assert(front.drop_last() =~= single);
            assert(front.last() == f);
            assert(single.drop_last() =~= none);
            assert(single.last() == h);
            assert(none.filter(pred) == none);
            assert(single.filter(pred) == none.filter(pred));
            assert(front.filter(pred) == single.filter(pred).push(f));
            assert(front.filter(pred) =~= seq![f]);
        } else {
            lemma_function_lines(categories, entries, i + 1, current);
            let front = seq![f];
            let rest = report_from(categories, entries, i + 1, current);
            assert(report_from(categories, entries, i, current) == front + rest);
            Seq::filter_distributes_over_add(front, rest, pred);
            assert(front.drop_last() =~= none);
            assert(front.last() == f);
            assert(none.filter(pred) == none);
            assert(front.filter(pred) == none.filter(pred).push(f));
            assert(front.filter(pred) =~= seq![f]);
        }
    }
}

proof fn lemma_report_holds_function_line(
    categories: Seq<Seq<char>>,
    entries: Seq<(Seq<char>, (usize, bool))>,
    i: int,
    current: usize,
    k: int,
)
    requires
        0 <= i <= k < entries.len(),
        is_reported(entries[k].0, entries),
    ensures
        report_from(categories, entries, i, current).contains(
            function_line(entries[k].0, entries[k].1.1),
        ),
    decreases k - i,
{
    let line = function_line(entries[k].0, entries[k].1.1);
    let here = report_from(categories, entries, i, current);
    let category = entries[i].1.0;
    if i == k {
        if category != current {
            assert(here[1] == line);
        } else {
            assert(here[0] == line);
        }
    } else {
        let next = if is_reported(entries[i].0, entries) && category != current {
            category
        } else {
            current
        };
        lemma_report_holds_function_line(categories, entries, i + 1, next, k);
        let rest = report_from(categories, entries, i + 1, next);
        let j = choose|j: int| 0 <= j < rest.len() && rest[j] == line;
        if !is_reported(entries[i].0, entries) {
            assert(here[j] == line);
        } else if category != current {
            assert(here[j + 2] == line);
        } else {
            assert(here[j + 1] == line);
        }
    }
}

/// Law: apart from its headings, the coverage report is one line per
/// reported function, in the order of the map, each checked exactly when
/// that function's own flag says the bindings cover it (`- [x] <name>`) and
/// unchecked otherwise (`- [ ] <name>`), whatever heading comes before it;
/// so every reported function has its own line in the report.
pub proof fn law_report_function_lines(
    categories: Seq<Seq<char>>,
    entries: Seq<(Seq<char>, (usize, bool))>,
)
    ensures
        function_lines_of(report_from(categories, entries, 0, usize::MAX)) == function_lines_from(
            entries,
            0,
        ),
        forall|k: int|
            0 <= k < entries.len() && is_reported(entries[k].0, entries) ==> report_from(
                categories,
                entries,
                0,
                usize::MAX,
            ).contains(#[trigger] function_line(entries[k].0, entries[k].1.1)),
{
    lemma_function_lines(categories, entries, 0, usize::MAX);
    assert forall|k: int|
        0 <= k < entries.len() && is_reported(entries[k].0, entries) implies report_from(
        categories,
        entries,
        0,
        usize::MAX,
    ).contains(#[trigger] function_line(entries[k].0, entries[k].1.1)) by {
        lemma_report_holds_function_line(categories, entries, 0, usize::MAX, k);
    }
}

} // verus!

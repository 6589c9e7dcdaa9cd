//! The task lists of a project's page: filtered by tags, and either
//! searched by name and description or sorted by the project's sort mode.
use crate::clock::{system_time_is_earlier, system_time_now};
use crate::database::{project_of, Database};
use crate::ids::ProjectId;
use crate::markdown::text_model;
use crate::preferences::{OptionalPreference, Preferences};
use crate::ids::{TaskId, TaskTagId};
use crate::ordered_hash_map::OrderedHashMap;
use crate::project::{
    lemma_sort_key_order_antisymmetric, lemma_sorted_is_ordered, lemma_task_ids_are_supported_keys,
    sort_key_order, sorted_by_key, task_sort_key, Project, SortKey, SortMode, Task,
};
use crate::stable_order::{
    antisymmetric, key_class, keeps_ties, lemma_ordered_with_same_ties_are_equal,
    lemma_swap_keeps_key_classes, ordered_by,
};
use fuzzy_matcher::skim::SkimMatcherV2;
use fuzzy_matcher::FuzzyMatcher;
use std::collections::HashSet;
use std::time::SystemTime;
use vstd::prelude::*;

verus! {

/// The score of a fuzzy match of a pattern in a text, or `None` when the
/// pattern does not match.
pub uninterp spec fn fuzzy_score_of(choice: Seq<char>, pattern: Seq<char>) -> Option<i64>;

/// `SkimMatcherV2::default().fuzzy_match` (fuzzy-matcher): the score of the
/// fuzzy match of `pattern` in `choice`. The result is named, not stated.
#[verifier::external_body]
fn fuzzy_match(choice: &str, pattern: &str) -> (r: Option<i64>)
    ensures
        r == fuzzy_score_of(choice@, pattern@),
{
    SkimMatcherV2::default().fuzzy_match(choice, pattern)
}

/// The score of a task for a search: the sum of the scores of its name and
/// its description where both match (wrapping on overflow), else the score
/// of the one that matches.
pub open spec fn task_score(task: Task, pattern: Seq<char>) -> Option<i64> {
    match (fuzzy_score_of(task.name@, pattern), fuzzy_score_of(task.description@, pattern)) {
        (Some(a), Some(b)) => Some(a.wrapping_add(b)),
        (Some(a), None) => Some(a),
        (None, b) => b,
    }
}

/// The ids, in order, of the tasks that have every tag of the filter.
pub open spec fn matching_ids(order: Seq<TaskId>, entries: Map<TaskId, Task>, filter: Set<TaskTagId>) -> Seq<
    TaskId,
>
    decreases order.len(),
{
    if order.len() == 0 {
        Seq::empty()
    } else {
        let rest = matching_ids(order.drop_last(), entries, filter);
        let id = order.last();
        if entries.contains_key(id) && filter.subset_of(entries[id].tags@) {
            rest.push(id)
        } else {
            rest
        }
    }
}

/// The ids and scores, in order, of the tasks that have every tag of the
/// filter and match the search.
pub open spec fn scored_ids(
    order: Seq<TaskId>,
    entries: Map<TaskId, Task>,
    filter: Set<TaskTagId>,
    pattern: Seq<char>,
) -> Seq<(TaskId, i64)>
    decreases order.len(),
{
    if order.len() == 0 {
        Seq::empty()
    } else {
        let rest = scored_ids(order.drop_last(), entries, filter, pattern);
        let id = order.last();
        if entries.contains_key(id) && filter.subset_of(entries[id].tags@) {
            match task_score(entries[id], pattern) {
                Some(score) => rest.push((id, score)),
                None => rest,
            }
        } else {
            rest
        }
    }
}

/// The pairs are in descending order of their scores.
pub open spec fn by_descending_score(pairs: Seq<(TaskId, i64)>) -> bool {
    forall|i: int, j: int| 0 <= i < j < pairs.len() ==> #[trigger] pairs[i].1 >= #[trigger] pairs[j].1
}

/// The score of a scored pair.
pub open spec fn pair_score() -> spec_fn((TaskId, i64)) -> i64 {
    |x: (TaskId, i64)| x.1
}

/// Scores from the highest down.
pub open spec fn descending() -> spec_fn(i64, i64) -> bool {
    |a: i64, b: i64| a >= b
}

/// The scored pairs from the highest score down, pairs with equal scores in
/// the order they came in.
pub open spec fn ranked_pairs(p: Seq<(TaskId, i64)>, scored: Seq<(TaskId, i64)>) -> bool {
    &&& p.to_multiset() == scored.to_multiset()
    &&& by_descending_score(p)
    &&& keeps_ties(p, scored, pair_score())
}

/// The ids are those of the scored pairs, from the highest score down; pairs
/// with equal scores keep the order they came in.
pub open spec fn ranked(ids: Seq<TaskId>, scored: Seq<(TaskId, i64)>) -> bool {
    exists|p: Seq<(TaskId, i64)>|
        #[trigger] ranked_pairs(p, scored) && ids == p.map_values(|x: (TaskId, i64)| x.0)
}

/// The ids of one list without a search: the matching tasks, sorted by the
/// project's sort mode.
pub open spec fn sorted_list(
    ids: Seq<TaskId>,
    tasks: OrderedHashMap<TaskId, Task>,
    filter: Set<TaskTagId>,
    project: Project,
    unspecified_at_bottom: bool,
) -> bool {
    let matching = matching_ids(tasks.key_order(), tasks.entries(), filter);
    &&& ids.to_multiset() == matching.to_multiset()
    &&& sorted_by_key(ids, project, project.sort_mode, unspecified_at_bottom)
    &&& keeps_ties(ids, matching, task_sort_key(project, project.sort_mode, unspecified_at_bottom))
    &&& project.sort_mode == SortMode::Manual ==> ids == matching
}

/// The search of a filter text: none when there is no text or it is empty.
pub open spec fn search_pattern(search_filter: Option<String>) -> Option<Seq<char>> {
    match search_filter {
        Some(s) => if s@.len() == 0 {
            None
        } else {
            Some(s@)
        },
        None => None,
    }
}

/// The task lists that `CachedTaskList::generate` makes of a project with a
/// tag filter and a search text.
pub open spec fn generated_list(
    r: CachedTaskList,
    project: Project,
    task_tag_filter: Set<TaskTagId>,
    search_filter: Option<String>,
    sort_unspecified_tasks_at_bottom: bool,
) -> bool {
    match search_pattern(search_filter) {
        Some(pattern) => {
            &&& ranked(
                r.todo@,
                scored_ids(
                    project.todo_tasks.key_order(),
                    project.todo_tasks.entries(),
                    task_tag_filter,
                    pattern,
                ),
            )
            &&& ranked(
                r.done@,
                scored_ids(
                    project.done_tasks.key_order(),
                    project.done_tasks.entries(),
                    task_tag_filter,
                    pattern,
                ),
            )
            &&& ranked(
                r.source_code_todo@,
                scored_ids(
                    project.source_code_todos.key_order(),
                    project.source_code_todos.entries(),
                    task_tag_filter,
                    pattern,
                ),
            )
        },
        None => {
            &&& sorted_list(
                r.todo@,
                project.todo_tasks,
                task_tag_filter,
                project,
                sort_unspecified_tasks_at_bottom,
            )
            &&& sorted_list(
                r.done@,
                project.done_tasks,
                task_tag_filter,
                project,
                sort_unspecified_tasks_at_bottom,
            )
            &&& sorted_list(
                r.source_code_todo@,
                project.source_code_todos,
                task_tag_filter,
                project,
                sort_unspecified_tasks_at_bottom,
            )
        },
    }
}

/// The tasks of a project's page: to do, done and to-dos of the source code,
/// and when the list was made.
#[derive(Debug)]
pub struct CachedTaskList {
    pub todo: Vec<TaskId>,
    pub done: Vec<TaskId>,
    pub source_code_todo: Vec<TaskId>,
    pub cache_time: SystemTime,
}

/// The ids of the tasks in the order of the map that have every tag of the
/// filter.
fn matching_task_ids(tasks: &OrderedHashMap<TaskId, Task>, filter: &HashSet<TaskTagId>) -> (r: Vec<
    TaskId,
>)
    ensures
        r@ == matching_ids(tasks.key_order(), tasks.entries(), filter@),
{
    proof {
        lemma_task_ids_are_supported_keys();
    }
    let order = tasks.keys();
    let mut r: Vec<TaskId> = Vec::new();
    let mut i: usize = 0;
    while i < order.len()
        invariant
            i <= order@.len(),
            order@ == tasks.key_order(),
            r@ == matching_ids(tasks.key_order().take(i as int), tasks.entries(), filter@),
        decreases order@.len() - i,
    {
        let id = order[i];
        assert(tasks.key_order().take(i + 1).drop_last() =~= tasks.key_order().take(i as int));
        match tasks.get(&id) {
            Some(task) => {
                if task.matches_filter(filter) {
                    r.push(id);
                }
            },
            None => {},
        }
        i = i + 1;
    }
    assert(tasks.key_order().take(order@.len() as int) =~= tasks.key_order());
    r
}

/// The score of a task for a search pattern.
fn score_of_task(task: &Task, pattern: &String) -> (r: Option<i64>)
    ensures
        r == task_score(*task, pattern@),
{
    let name_score = fuzzy_match(task.name.as_str(), pattern.as_str());
    let description_score = fuzzy_match(task.description.as_str(), pattern.as_str());
    match (name_score, description_score) {
        (Some(a), Some(b)) => Some(a.wrapping_add(b)),
        (Some(a), None) => Some(a),
        (None, b) => b,
    }
}

/// The ids and scores of the matching tasks in the order of the map.
fn scored_task_ids(
    tasks: &OrderedHashMap<TaskId, Task>,
    filter: &HashSet<TaskTagId>,
    pattern: &String,
) -> (r: Vec<(TaskId, i64)>)
    ensures
        r@ == scored_ids(tasks.key_order(), tasks.entries(), filter@, pattern@),
{
    proof {
        lemma_task_ids_are_supported_keys();
    }
    let order = tasks.keys();
    let mut r: Vec<(TaskId, i64)> = Vec::new();
    let mut i: usize = 0;
    while i < order.len()
        invariant
            i <= order@.len(),
            order@ == tasks.key_order(),
            r@ == scored_ids(tasks.key_order().take(i as int), tasks.entries(), filter@, pattern@),
        decreases order@.len() - i,
    {
        let id = order[i];
        assert(tasks.key_order().take(i + 1).drop_last() =~= tasks.key_order().take(i as int));
        match tasks.get(&id) {
            Some(task) => {
                if task.matches_filter(filter) {
                    match score_of_task(task, pattern) {
                        Some(score) => r.push((id, score)),
                        None => {},
                    }
                }
            },
            None => {},
        }
        i = i + 1;
    }
    assert(tasks.key_order().take(order@.len() as int) =~= tasks.key_order());
    r
}

/// The ids of the scored pairs, from the highest score down.
fn rank_by_score(pairs: Vec<(TaskId, i64)>) -> (r: Vec<TaskId>)
    ensures
        ranked(r@, pairs@),
{
    broadcast use vstd::multiset::group_multiset_axioms;

    let mut p = pairs;
    let n = p.len();
    let mut i: usize = 1;
    if n > 0 {
        while i < n
            invariant
                1 <= i <= n,
                n == p@.len(),
                p@.to_multiset() == pairs@.to_multiset(),
                keeps_ties(p@, pairs@, pair_score()),
                forall|a: int, b: int| 0 <= a < b < i ==> #[trigger] p@[a].1 >= #[trigger] p@[b].1,
            decreases n - i,
        {
            let mut j: usize = i;
            while j > 0
                invariant
                    1 <= i < n,
                    0 <= j <= i,
                    n == p@.len(),
                    p@.to_multiset() == pairs@.to_multiset(),
                    keeps_ties(p@, pairs@, pair_score()),
                    forall|a: int, b: int| 0 <= a < b < j ==> #[trigger] p@[a].1 >= #[trigger] p@[b].1,
                    forall|a: int, b: int| j < a < b <= i ==> #[trigger] p@[a].1 >= #[trigger] p@[b].1,
                    forall|a: int, b: int|
                        0 <= a < j && j < b <= i ==> #[trigger] p@[a].1 >= #[trigger] p@[b].1,
                    forall|b: int| j < b <= i ==> p@[j as int].1 >= #[trigger] p@[b].1,
                ensures
                    n == p@.len(),
                    p@.to_multiset() == pairs@.to_multiset(),
                    keeps_ties(p@, pairs@, pair_score()),
                    forall|a: int, b: int| 0 <= a < b <= i ==> #[trigger] p@[a].1 >= #[trigger] p@[b].1,
                decreases j,
            {
                if p[j - 1].1 >= p[j].1 {
                    break;
                }
                let ghost s = p@;
                let left = p[j - 1];
                let right = p[j];
                p.set(j - 1, right);
                p.set(j, left);
                proof {
                    let s1 = s.update(j - 1, right);
                    assert(p@ == s1.update(j as int, left));
                    vstd::seq_lib::to_multiset_update(s, j - 1, right);
                    vstd::seq_lib::to_multiset_update(s1, j as int, left);
                    vstd::seq_lib::to_multiset_contains(s, left);
                    vstd::seq_lib::to_multiset_contains(s1, right);
                    assert(p@.to_multiset() =~= s.to_multiset());
                    lemma_swap_keeps_key_classes(s, j - 1, pair_score());
                    assert(p@ == s.update(j - 1, s[j as int]).update(j as int, s[j - 1]));
                }
                j = j - 1;
            }
            i = i + 1;
        }
    }
    let mut r: Vec<TaskId> = Vec::new();
    let mut k: usize = 0;
    while k < n
        invariant
            k <= n,
            n == p@.len(),
            r@ == p@.take(k as int).map_values(|x: (TaskId, i64)| x.0),
        decreases n - k,
    {
        r.push(p[k].0);
        k = k + 1;
        assert(r@ =~= p@.take(k as int).map_values(|x: (TaskId, i64)| x.0));
    }
    assert(p@.take(n as int) =~= p@);
    assert(p@.to_multiset() == pairs@.to_multiset());
    assert(by_descending_score(p@));
    assert(ranked_pairs(p@, pairs@));
    assert(r@ == p@.map_values(|x: (TaskId, i64)| x.0));
    r
}

impl CachedTaskList {
    /// A task list made now.
    pub fn new(todo: Vec<TaskId>, done: Vec<TaskId>, source_code_todo: Vec<TaskId>) -> (r: Self)
        ensures
            r.todo == todo,
            r.done == done,
            r.source_code_todo == source_code_todo,
    {
        CachedTaskList { todo, done, source_code_todo, cache_time: system_time_now() }
    }

    /// The task lists of a project: each holds the tasks of its kind that
    /// have every tag of the filter. With a non-empty search text, only the
    /// tasks whose name or description match it are listed, best match
    /// first; without one, the lists are sorted by the project's sort mode.
    pub fn generate(
        project: &Project,
        task_tag_filter: &HashSet<TaskTagId>,
        search_filter: &Option<String>,
        sort_unspecified_tasks_at_bottom: bool,
    ) -> (r: Self)
        ensures
            generated_list(r, *project, task_tag_filter@, *search_filter, sort_unspecified_tasks_at_bottom),
    {
        let search = match search_filter {
            Some(s) => if s.as_str().unicode_len() == 0 {
                None
            } else {
                Some(s)
            },
            None => None,
        };
        match search {
            Some(pattern) => {
                let todo = rank_by_score(scored_task_ids(&project.todo_tasks, task_tag_filter, pattern));
                let done = rank_by_score(scored_task_ids(&project.done_tasks, task_tag_filter, pattern));
                let source_code_todo = rank_by_score(
                    scored_task_ids(&project.source_code_todos, task_tag_filter, pattern),
                );
                Self::new(todo, done, source_code_todo)
            },
            None => {
                let mut todo = matching_task_ids(&project.todo_tasks, task_tag_filter);
                let mut done = matching_task_ids(&project.done_tasks, task_tag_filter);
                let mut source_code_todo = matching_task_ids(&project.source_code_todos, task_tag_filter);
                project.sort_mode.sort(project, &mut todo, sort_unspecified_tasks_at_bottom);
                project.sort_mode.sort(project, &mut done, sort_unspecified_tasks_at_bottom);
                project.sort_mode.sort(project, &mut source_code_todo, sort_unspecified_tasks_at_bottom);
                Self::new(todo, done, source_code_todo)
            },
        }
    }
}

} // verus!

verus! {

/// A task that has every tag of the filter and matches the search by name
/// or by description is among the scored tasks, with its score.
proof fn lemma_matching_task_is_scored(
    order: Seq<TaskId>,
    entries: Map<TaskId, Task>,
    filter: Set<TaskTagId>,
    pattern: Seq<char>,
    k: int,
)
    requires
        0 <= k < order.len(),
        entries.contains_key(order[k]),
        filter.subset_of(entries[order[k]].tags@),
        task_score(entries[order[k]], pattern) is Some,
    ensures
        scored_ids(order, entries, filter, pattern).contains(
            (order[k], task_score(entries[order[k]], pattern)->0),
        ),
    decreases order.len(),
{
    let rest = order.drop_last();
    if k < order.len() - 1 {
        assert(rest[k] == order[k]);
        lemma_matching_task_is_scored(rest, entries, filter, pattern, k);
        let s = scored_ids(rest, entries, filter, pattern);
        let x = (order[k], task_score(entries[order[k]], pattern)->0);
        let j = choose|j: int| 0 <= j < s.len() && s[j] == x;
        let full = scored_ids(order, entries, filter, pattern);
        assert(full[j] == x);
    } else {
        let full = scored_ids(order, entries, filter, pattern);
        assert(full[full.len() - 1] == (order[k], task_score(entries[order[k]], pattern)->0));
    }
}

/// A task matches a search when its name or its description does; where
/// both match, its score is the sum of the two (wrapping), else the score
/// of the one that matches.
pub proof fn law_search_score_counts_name_and_description(task: Task, pattern: Seq<char>)
    ensures
        task_score(task, pattern) is Some <==> (fuzzy_score_of(task.name@, pattern) is Some
            || fuzzy_score_of(task.description@, pattern) is Some),
        fuzzy_score_of(task.name@, pattern) matches Some(a) ==> fuzzy_score_of(task.description@, pattern) matches Some(b)
            ==> task_score(task, pattern) == Some(a.wrapping_add(b)),
        fuzzy_score_of(task.name@, pattern) is None ==> task_score(task, pattern) == fuzzy_score_of(
            task.description@,
            pattern,
        ),
        fuzzy_score_of(task.description@, pattern) is None ==> task_score(task, pattern) == fuzzy_score_of(
            task.name@,
            pattern,
        ),
{
}

/// A search lists every task to do that has every tag of the filter and
/// whose name or description matches the search: a match in the
/// description alone is enough.
pub proof fn law_search_finds_names_and_descriptions(
    r: CachedTaskList,
    project: Project,
    filter: Set<TaskTagId>,
    search: Option<String>,
    unspecified_at_bottom: bool,
    id: TaskId,
)
    requires
        generated_list(r, project, filter, search, unspecified_at_bottom),
        search_pattern(search) is Some,
        project.todo_tasks.key_order().contains(id),
        project.todo_tasks.entries().contains_key(id),
        filter.subset_of(project.todo_tasks.entries()[id].tags@),
        fuzzy_score_of(project.todo_tasks.entries()[id].name@, search_pattern(search)->0) is Some
            || fuzzy_score_of(project.todo_tasks.entries()[id].description@, search_pattern(search)->0) is Some,
    ensures
        r.todo@.contains(id),
{
    broadcast use vstd::multiset::group_multiset_axioms;

    let pattern = search_pattern(search)->0;
    let order = project.todo_tasks.key_order();
    let entries = project.todo_tasks.entries();
    let k = choose|k: int| 0 <= k < order.len() && order[k] == id;
    lemma_matching_task_is_scored(order, entries, filter, pattern, k);
    let scored = scored_ids(order, entries, filter, pattern);
    let x = (id, task_score(entries[id], pattern)->0);
    let p = choose|p: Seq<(TaskId, i64)>|
        #[trigger] ranked_pairs(p, scored) && r.todo@ == p.map_values(|y: (TaskId, i64)| y.0);
    vstd::seq_lib::to_multiset_contains(scored, x);
    assert(p.to_multiset().contains(x));
    p.to_multiset_ensures();
    assert(p.contains(x));
    let j = choose|j: int| 0 <= j < p.len() && p[j] == x;
    assert(r.todo@[j] == id);
}

/// The list of a kind of tasks without a search is determined by the tasks,
/// the tag filter, the project and where tasks without a value go: the sort
/// is stable, so no two such lists differ.
pub proof fn law_sorted_list_is_determined(
    a: Seq<TaskId>,
    b: Seq<TaskId>,
    tasks: OrderedHashMap<TaskId, Task>,
    filter: Set<TaskTagId>,
    project: Project,
    unspecified_at_bottom: bool,
)
    requires
        sorted_list(a, tasks, filter, project, unspecified_at_bottom),
        sorted_list(b, tasks, filter, project, unspecified_at_bottom),
    ensures
        a == b,
{
    let key = task_sort_key(project, project.sort_mode, unspecified_at_bottom);
    lemma_sorted_is_ordered(a, project, project.sort_mode, unspecified_at_bottom);
    lemma_sorted_is_ordered(b, project, project.sort_mode, unspecified_at_bottom);
    lemma_sort_key_order_antisymmetric();
    let matching = matching_ids(tasks.key_order(), tasks.entries(), filter);
    assert forall|k: SortKey| #[trigger] key_class(a, key, k) == key_class(b, key, k) by {
        assert(key_class(a, key, k) == key_class(matching, key, k));
        assert(key_class(b, key, k) == key_class(matching, key, k));
    }
    lemma_ordered_with_same_ties_are_equal(a, b, key, sort_key_order());
}

/// The ranking of scored tasks is determined by the scored tasks: equal
/// scores keep their order, so no two rankings differ.
pub proof fn law_ranking_is_determined(a: Seq<TaskId>, b: Seq<TaskId>, scored: Seq<(TaskId, i64)>)
    requires
        ranked(a, scored),
        ranked(b, scored),
    ensures
        a == b,
{
    let pa = choose|p: Seq<(TaskId, i64)>|
        #[trigger] ranked_pairs(p, scored) && a == p.map_values(|x: (TaskId, i64)| x.0);
    let pb = choose|p: Seq<(TaskId, i64)>|
        #[trigger] ranked_pairs(p, scored) && b == p.map_values(|x: (TaskId, i64)| x.0);
    assert(ordered_by(pa, pair_score(), descending())) by {
        assert forall|i: int, j: int| 0 <= i < j < pa.len() implies (descending())(
            #[trigger] (pair_score())(pa[i]),
            #[trigger] (pair_score())(pa[j]),
        ) by {
            assert(pa[i].1 >= pa[j].1);
        }
    }
    assert(ordered_by(pb, pair_score(), descending())) by {
        assert forall|i: int, j: int| 0 <= i < j < pb.len() implies (descending())(
            #[trigger] (pair_score())(pb[i]),
            #[trigger] (pair_score())(pb[j]),
        ) by {
            assert(pb[i].1 >= pb[j].1);
        }
    }
    assert(antisymmetric(descending()));
    assert forall|k: i64| #[trigger] key_class(pa, pair_score(), k) == key_class(pb, pair_score(), k) by {
        assert(key_class(pa, pair_score(), k) == key_class(scored, pair_score(), k));
        assert(key_class(pb, pair_score(), k) == key_class(scored, pair_score(), k));
    }
    lemma_ordered_with_same_ties_are_equal(pa, pb, pair_score(), descending());
}

/// The task lists depend on the search text only through its pattern: an
/// empty search text lists the same tasks, in the same order, as no search
/// text.
pub proof fn law_generated_lists_follow_the_search_pattern(
    r1: CachedTaskList,
    r2: CachedTaskList,
    project: Project,
    filter: Set<TaskTagId>,
    search1: Option<String>,
    search2: Option<String>,
    unspecified_at_bottom: bool,
)
    requires
        generated_list(r1, project, filter, search1, unspecified_at_bottom),
        generated_list(r2, project, filter, search2, unspecified_at_bottom),
        search_pattern(search1) == search_pattern(search2),
    ensures
        r1.todo@ == r2.todo@,
        r1.done@ == r2.done@,
        r1.source_code_todo@ == r2.source_code_todo@,
{
    match search_pattern(search1) {
        Some(pattern) => {
            law_ranking_is_determined(r1.todo@, r2.todo@, scored_ids(project.todo_tasks.key_order(), project.todo_tasks.entries(), filter, pattern));
            law_ranking_is_determined(r1.done@, r2.done@, scored_ids(project.done_tasks.key_order(), project.done_tasks.entries(), filter, pattern));
            law_ranking_is_determined(r1.source_code_todo@, r2.source_code_todo@, scored_ids(project.source_code_todos.key_order(), project.source_code_todos.entries(), filter, pattern));
        },
        None => {
            law_sorted_list_is_determined(r1.todo@, r2.todo@, project.todo_tasks, filter, project, unspecified_at_bottom);
            law_sorted_list_is_determined(r1.done@, r2.done@, project.done_tasks, filter, project, unspecified_at_bottom);
            law_sorted_list_is_determined(r1.source_code_todo@, r2.source_code_todo@, project.source_code_todos, filter, project, unspecified_at_bottom);
        },
    }
}

/// Without a tag filter, every task of the map is listed, in the map's
/// order.
pub proof fn law_empty_filter_lists_every_task(order: Seq<TaskId>, entries: Map<TaskId, Task>)
    requires
        forall|i: int| 0 <= i < order.len() ==> entries.contains_key(#[trigger] order[i]),
    ensures
        matching_ids(order, entries, Set::empty()) == order,
    decreases order.len(),
{
    if order.len() > 0 {
        law_empty_filter_lists_every_task(order.drop_last(), entries);
        assert(order.drop_last().push(order.last()) =~= order);
    }
}

} // verus!

verus! {

#[derive(Debug)]
pub enum Message {
    RefreshCachedTaskList,
    OpenSortModeDropdown,
    CloseSortModeDropdown,
    SetSortMode(SortMode),
    ShowContextMenu,
    HideContextMenu,
    OpenManageTaskTagsModal,
    OpenSearchTasks,
    CloseSearchTasks,
    ChangeSearchTasksFilter(String),
    ImportSourceCodeTodosDialog,
    /// The source code to-dos read from a folder.
    ImportSourceCodeTodos {
        source_code_directory: String,
        source_code_todos: OrderedHashMap<TaskId, Task>,
    },
    ReimportSourceCodeTodos,
    ImportSourceCodeTodosDialogCanceled,
    ShowSourceCodeTodos(bool),
    ShowDoneTasks(bool),
    ToggleFilterTaskTag(TaskTagId),
    UnsetFilterTaskTag(TaskTagId),
    ShowColorPicker,
    HideColorPicker,
    /// A new color, as red, green and blue.
    ChangeProjectColor([u8; 3]),
    ConfirmDeleteProject,
    AnimateProgressbar,
}

/// What the application does after a message of a project's page.
#[derive(Debug)]
pub enum Action {
    NoAction,
    FocusSearchInput,
    ChangeProjectSortMode { project_id: ProjectId, new_sort_mode: SortMode },
    OpenManageTaskTagsModal(ProjectId),
    /// Let the user pick a folder and read the to-dos of its source code.
    PickSourceCodeFolder,
    /// Read the to-dos of the source code in the given folder again.
    ImportSourceCodeTodosFrom(String),
    ImportSourceCodeTodos {
        project_id: ProjectId,
        source_code_directory: String,
        source_code_todo_tasks: OrderedHashMap<TaskId, Task>,
    },
    ChangeProjectColor { project_id: ProjectId, new_color: [u8; 3] },
    ConfirmDeleteProject { project_id: ProjectId, project_name: String },
}

/// A project's page: its task lists and what is open, shown and filtered.
#[derive(Debug)]
pub struct Page {
    pub project_id: ProjectId,
    pub cached_task_list: CachedTaskList,
    pub show_done_tasks: bool,
    pub show_source_code_todos: bool,
    pub show_color_picker: bool,
    pub filter_task_tags: HashSet<TaskTagId>,
    pub search_tasks_filter: Option<String>,
    pub show_context_menu: bool,
    pub show_sort_mode_dropdown: bool,
    pub importing_source_code_todos: bool,
}

/// The page's state apart from its task lists and its filters.
pub open spec fn same_flags(a: Page, b: Page) -> bool {
    &&& a.project_id == b.project_id
    &&& a.show_done_tasks == b.show_done_tasks
    &&& a.show_source_code_todos == b.show_source_code_todos
    &&& a.show_color_picker == b.show_color_picker
    &&& a.show_context_menu == b.show_context_menu
    &&& a.show_sort_mode_dropdown == b.show_sort_mode_dropdown
    &&& a.importing_source_code_todos == b.importing_source_code_todos
}

/// The page's flags after a message; the lists and filters aside.
pub open spec fn flags_after(p: Page, message: Message, project: Option<Project>) -> Page {
    match message {
        Message::OpenSortModeDropdown => Page { show_sort_mode_dropdown: true, ..p },
        Message::CloseSortModeDropdown | Message::SetSortMode(_) => Page { show_sort_mode_dropdown: false, ..p },
        Message::ShowContextMenu => Page { show_context_menu: true, ..p },
        Message::HideContextMenu | Message::OpenManageTaskTagsModal | Message::ConfirmDeleteProject => Page {
            show_context_menu: false,
            ..p
        },
        Message::ImportSourceCodeTodosDialog => Page {
            show_context_menu: false,
            importing_source_code_todos: true,
            ..p
        },
        Message::ReimportSourceCodeTodos => match project {
            Some(pr) => if pr.source_code_directory is Some {
                Page { importing_source_code_todos: true, ..p }
            } else {
                Page { show_context_menu: false, importing_source_code_todos: true, ..p }
            },
            None => Page { show_context_menu: false, importing_source_code_todos: true, ..p },
        },
        Message::ImportSourceCodeTodosDialogCanceled | Message::ImportSourceCodeTodos { .. } => Page {
            importing_source_code_todos: false,
            ..p
        },
        Message::ShowSourceCodeTodos(show) => Page { show_source_code_todos: show, ..p },
        Message::ShowDoneTasks(show) => Page { show_done_tasks: show, ..p },
        Message::ShowColorPicker => Page { show_color_picker: true, ..p },
        Message::HideColorPicker | Message::ChangeProjectColor(_) => Page { show_color_picker: false, ..p },
        _ => p,
    }
}

/// The messages that change the search or the tag filter, after which the
/// task lists are made again.
pub open spec fn regenerates_list(message: Message) -> bool {
    ||| message is OpenSearchTasks
    ||| message is CloseSearchTasks
    ||| message is ChangeSearchTasksFilter
    ||| message is ToggleFilterTaskTag
    ||| message is UnsetFilterTaskTag
}

/// The page's task lists are those of `project` under the page's tag filter
/// and search.
pub open spec fn list_regenerated(page: Page, project: Project, preferences: Option<Preferences>) -> bool {
    generated_list(
        page.cached_task_list,
        project,
        page.filter_task_tags@,
        page.search_tasks_filter,
        match preferences {
            Some(p) => p.sort_unspecified_tasks_at_bottom,
            None => true,
        },
    )
}

/// What a message does to a project's page: `before` and `after` are the
/// page around it, `r` is the action it answers with.
pub open spec fn project_page_update(
    before: Page,
    after: Page,
    message: Message,
    database: Option<&Database>,
    preferences: Option<Preferences>,
    r: Action,
) -> bool {
    &&& same_flags(
        after,
        flags_after(
            before,
            message,
            match database {
                Some(db) => project_of(*db, before.project_id),
                None => None,
            },
        ),
    )
    &&& after.filter_task_tags@ == match message {
        Message::ToggleFilterTaskTag(tag) => if before.filter_task_tags@.contains(tag) {
            before.filter_task_tags@.remove(tag)
        } else {
            before.filter_task_tags@.insert(tag)
        },
        Message::UnsetFilterTaskTag(tag) => before.filter_task_tags@.remove(tag),
        _ => before.filter_task_tags@,
    }
    &&& text_model(after.search_tasks_filter) == match message {
        Message::OpenSearchTasks => Some(Seq::<char>::empty()),
        Message::CloseSearchTasks => None,
        Message::ChangeSearchTasksFilter(filter) => Some(filter@),
        _ => text_model(before.search_tasks_filter),
    }
    &&& match database {
        Some(db) => match project_of(*db, before.project_id) {
            Some(project) => if regenerates_list(message) {
                list_regenerated(after, project, preferences)
            } else {
                after.cached_task_list == before.cached_task_list || list_regenerated(after, project, preferences)
            },
            None => after.cached_task_list == before.cached_task_list,
        },
        None => after.cached_task_list == before.cached_task_list,
    }
    &&& match message {
        Message::SetSortMode(mode) => r == Action::ChangeProjectSortMode {
            project_id: before.project_id,
            new_sort_mode: mode,
        },
        Message::OpenManageTaskTagsModal => r == Action::OpenManageTaskTagsModal(before.project_id),
        Message::OpenSearchTasks => r == Action::FocusSearchInput,
        Message::ImportSourceCodeTodosDialog => r == Action::PickSourceCodeFolder,
        Message::ImportSourceCodeTodos { source_code_directory, source_code_todos } => r
            == Action::ImportSourceCodeTodos {
            project_id: before.project_id,
            source_code_directory,
            source_code_todo_tasks: source_code_todos,
        },
        Message::ReimportSourceCodeTodos => match database {
            Some(db) => match project_of(*db, before.project_id) {
                Some(project) => match project.source_code_directory {
                    Some(dir) => r matches Action::ImportSourceCodeTodosFrom(d) && d@ == dir@,
                    None => r == Action::PickSourceCodeFolder,
                },
                None => r == Action::PickSourceCodeFolder,
            },
            None => r == Action::PickSourceCodeFolder,
        },
        Message::ChangeProjectColor(color) => r == Action::ChangeProjectColor {
            project_id: before.project_id,
            new_color: color,
        },
        Message::ConfirmDeleteProject => r matches Action::ConfirmDeleteProject { project_id, project_name }
            && project_id == before.project_id && project_name@ == match database {
            Some(db) => match project_of(*db, before.project_id) {
                Some(project) => project.name@,
                None => "<invalid project id>"@,
            },
            None => "<invalid project id>"@,
        },
        _ => r == Action::NoAction,
    }
}

impl Page {
    /// The page of a project with no filter and no search.
    pub fn new(project_id: ProjectId, project: &Project, preferences: &Option<Preferences>) -> (r: Self)
        ensures
            r.project_id == project_id,
            r.filter_task_tags@.is_empty(),
            r.search_tasks_filter is None,
            generated_list(
                r.cached_task_list,
                *project,
                Set::empty(),
                None,
                match *preferences {
                    Some(p) => p.sort_unspecified_tasks_at_bottom,
                    None => true,
                },
            ),
            !r.show_done_tasks,
            r.show_source_code_todos,
            !r.show_color_picker,
            !r.show_context_menu,
            !r.show_sort_mode_dropdown,
            !r.importing_source_code_todos,
    {
        let filter_task_tags: HashSet<TaskTagId> = HashSet::new();
        let cached_task_list = CachedTaskList::generate(
            project,
            &filter_task_tags,
            &None,
            preferences.sort_unspecified_tasks_at_bottom(),
        );
        Page {
            project_id,
            cached_task_list,
            show_done_tasks: false,
            show_source_code_todos: true,
            show_color_picker: false,
            filter_task_tags,
            search_tasks_filter: None,
            show_context_menu: false,
            show_sort_mode_dropdown: false,
            importing_source_code_todos: false,
        }
    }

    /// A tag filter or a non-empty search is active.
    pub fn filtering_tasks(&self) -> (r: bool)
        ensures
            r == (!self.filter_task_tags@.is_empty() || search_pattern(self.search_tasks_filter) is Some),
    {
        let tags_empty = hash_set_is_empty(&self.filter_task_tags);
        let searching = match &self.search_tasks_filter {
            Some(s) => s.as_str().unicode_len() != 0,
            None => false,
        };
        !tags_empty || searching
    }

    /// Makes the task lists again from the project in the database.
    pub fn generate_cached_task_list(&mut self, database: &Database, preferences: &Option<Preferences>)
        ensures
            same_flags(*final(self), *old(self)),
            final(self).filter_task_tags@ == old(self).filter_task_tags@,
            final(self).search_tasks_filter == old(self).search_tasks_filter,
            match project_of(*database, old(self).project_id) {
                Some(project) => generated_list(
                    final(self).cached_task_list,
                    project,
                    old(self).filter_task_tags@,
                    old(self).search_tasks_filter,
                    match *preferences {
                        Some(p) => p.sort_unspecified_tasks_at_bottom,
                        None => true,
                    },
                ),
                None => final(self).cached_task_list == old(self).cached_task_list,
            },
    {
        match database.get_project(&self.project_id) {
            Some(project) => {
                self.cached_task_list = CachedTaskList::generate(
                    project,
                    &self.filter_task_tags,
                    &self.search_tasks_filter,
                    preferences.sort_unspecified_tasks_at_bottom(),
                );
            },
            None => {},
        }
    }

    /// Handles a message of the page. Changing the search or the tag filter
    /// makes the task lists again; so does any message after the database
    /// changed since the lists were made.
    #[verifier::rlimit(60)]
    pub fn update(&mut self, message: Message, database: Option<&Database>, preferences: &Option<Preferences>) -> (r:
        Action)
        ensures
            project_page_update(*old(self), *final(self), message, database, *preferences, r),
        decreases (if message is ReimportSourceCodeTodos { 1int } else { 0int }),
    {
        let project_id = self.project_id;
        let action = match message {
            Message::RefreshCachedTaskList => Action::NoAction,
            Message::OpenSortModeDropdown => {
                self.show_sort_mode_dropdown = true;
                Action::NoAction
            },
            Message::CloseSortModeDropdown => {
                self.show_sort_mode_dropdown = false;
                Action::NoAction
            },
            Message::SetSortMode(new_sort_mode) => {
                self.show_sort_mode_dropdown = false;
                Action::ChangeProjectSortMode { project_id, new_sort_mode }
            },
            Message::ShowContextMenu => {
                self.show_context_menu = true;
                Action::NoAction
            },
            Message::HideContextMenu => {
                self.show_context_menu = false;
                Action::NoAction
            },
            Message::OpenManageTaskTagsModal => {
                self.show_context_menu = false;
                Action::OpenManageTaskTagsModal(project_id)
            },
            Message::OpenSearchTasks => {
                self.search_tasks_filter = Some(String::new());
                if let Some(db) = database {
                    self.generate_cached_task_list(db, preferences);
                }
                Action::FocusSearchInput
            },
            Message::CloseSearchTasks => {
                self.search_tasks_filter = None;
                if let Some(db) = database {
                    self.generate_cached_task_list(db, preferences);
                }
                Action::NoAction
            },
            Message::ChangeSearchTasksFilter(new_filter) => {
                self.search_tasks_filter = Some(new_filter);
                if let Some(db) = database {
                    self.generate_cached_task_list(db, preferences);
                }
                Action::NoAction
            },
            Message::ImportSourceCodeTodosDialog => {
                self.show_context_menu = false;
                self.importing_source_code_todos = true;
                Action::PickSourceCodeFolder
            },
            Message::ImportSourceCodeTodosDialogCanceled => {
                self.importing_source_code_todos = false;
                Action::NoAction
            },
            Message::ImportSourceCodeTodos { source_code_directory, source_code_todos } => {
                self.importing_source_code_todos = false;
                Action::ImportSourceCodeTodos {
                    project_id,
                    source_code_directory,
                    source_code_todo_tasks: source_code_todos,
                }
            },
            Message::ReimportSourceCodeTodos => {
                let directory = match database {
                    Some(db) => match db.get_project(&project_id) {
                        Some(project) => match &project.source_code_directory {
                            Some(dir) => Some(dir.clone()),
                            None => None,
                        },
                        None => None,
                    },
                    None => None,
                };
                match directory {
                    Some(dir) => {
                        self.importing_source_code_todos = true;
                        Action::ImportSourceCodeTodosFrom(dir)
                    },
                    None => {
                        self.show_context_menu = false;
                        self.importing_source_code_todos = true;
                        Action::PickSourceCodeFolder
                    },
                }
            },
            Message::ShowSourceCodeTodos(show) => {
                self.show_source_code_todos = show;
                Action::NoAction
            },
            Message::ShowDoneTasks(show) => {
                self.show_done_tasks = show;
                Action::NoAction
            },
            Message::ToggleFilterTaskTag(task_tag_id) => {
                proof {
                    broadcast use vstd::std_specs::hash::group_hash_axioms;

                }
                if self.filter_task_tags.contains(&task_tag_id) {
                    self.filter_task_tags.remove(&task_tag_id);
                } else {
                    self.filter_task_tags.insert(task_tag_id);
                }
                if let Some(db) = database {
                    self.generate_cached_task_list(db, preferences);
                }
                Action::NoAction
            },
            Message::UnsetFilterTaskTag(task_tag_id) => {
                proof {
                    broadcast use vstd::std_specs::hash::group_hash_axioms;

                }
                self.filter_task_tags.remove(&task_tag_id);
                if let Some(db) = database {
                    self.generate_cached_task_list(db, preferences);
                }
                Action::NoAction
            },
            Message::ShowColorPicker => {
                self.show_color_picker = true;
                Action::NoAction
            },
            Message::HideColorPicker => {
                self.show_color_picker = false;
                Action::NoAction
            },
            Message::ChangeProjectColor(new_color) => {
                self.show_color_picker = false;
                Action::ChangeProjectColor { project_id, new_color }
            },
            Message::ConfirmDeleteProject => {
                self.show_context_menu = false;
                proof {
                    reveal_strlit("<invalid project id>");
                }
                let project_name = match database {
                    Some(db) => match db.get_project(&project_id) {
                        Some(project) => project.name.clone(),
                        None => String::from_str("<invalid project id>"),
                    },
                    None => String::from_str("<invalid project id>"),
                };
                Action::ConfirmDeleteProject { project_id, project_name }
            },
            Message::AnimateProgressbar => Action::NoAction,
        };
        if let Some(db) = database {
            if system_time_is_earlier(&self.cached_task_list.cache_time, &db.last_changed_time) {
                self.generate_cached_task_list(db, preferences);
            }
        }
        action
    }
}

/// `HashSet::is_empty` (std): whether the set has no values.
#[verifier::external_body]
fn hash_set_is_empty(set: &HashSet<TaskTagId>) -> (r: bool)
    ensures
        r == set@.is_empty(),
{
    set.is_empty()
}

} // verus!

use crate::app::SortColumn;
use crate::bpf_program::{BpfProgram, ProgramView};
use crate::percent::lemma_percent_order;
use crate::text::{
    lemma_lex_le_reflexive, lemma_lex_le_total, lemma_lex_le_transitive, str_le, text_le,
};
use vstd::prelude::*;
use vstd::utf8::encode_utf8;

verus! {

/// The views of a list of programs, in order.
pub open spec fn views(programs: Seq<BpfProgram>) -> Seq<ProgramView> {
    programs.map_values(|p: BpfProgram| p@)
}

/// Every program of the list has counters that do not run backwards.
pub open spec fn all_wf(programs: Seq<ProgramView>) -> bool {
    forall|i: int| 0 <= i < programs.len() ==> (#[trigger] programs[i]).wf()
}

/// Whether `a` comes no later than `b` in the table's column `column`:
/// the type and the name go by the order of text, the four measures by
/// their size, and every other column by the program's id.
pub open spec fn key_le(column: usize, a: ProgramView, b: ProgramView) -> bool {
    if column == 1 {
        text_le(a.bpf_type, b.bpf_type)
    } else if column == 2 {
        text_le(a.name, b.name)
    } else if column == 3 {
        a.period_average_runtime_ns() <= b.period_average_runtime_ns()
    } else if column == 4 {
        a.total_average_runtime_ns() <= b.total_average_runtime_ns()
    } else if column == 5 {
        a.events_per_second() <= b.events_per_second()
    } else if column == 6 {
        a.cpu_time_percent().le_spec(b.cpu_time_percent())
    } else {
        a.id <= b.id
    }
}

/// The order of a column is reflexive, total and transitive.
pub proof fn lemma_key_le_order(column: usize, a: ProgramView, b: ProgramView, c: ProgramView)
    ensures
        key_le(column, a, a),
        key_le(column, a, b) || key_le(column, b, a),
        key_le(column, a, b) && key_le(column, b, c) ==> key_le(column, a, c),
{
    if column == 1 {
        let (x, y, z) = (encode_utf8(a.bpf_type), encode_utf8(b.bpf_type), encode_utf8(c.bpf_type));
        lemma_lex_le_reflexive(x);
        lemma_lex_le_total(x, y);
        if key_le(column, a, b) && key_le(column, b, c) {
            lemma_lex_le_transitive(x, y, z);
        }
    } else if column == 2 {
        let (x, y, z) = (encode_utf8(a.name), encode_utf8(b.name), encode_utf8(c.name));
        lemma_lex_le_reflexive(x);
        lemma_lex_le_total(x, y);
        if key_le(column, a, b) && key_le(column, b, c) {
            lemma_lex_le_transitive(x, y, z);
        }
    } else if column == 6 {
        lemma_percent_order(a.cpu_time_percent(), b.cpu_time_percent(), c.cpu_time_percent());
    }
}

/// Whether the list runs upwards in `column`.
pub open spec fn ordered(column: usize, programs: Seq<ProgramView>) -> bool {
    forall|i: int, j: int|
        0 <= i < j < programs.len() ==> key_le(column, #[trigger] programs[i], #[trigger] programs[j])
}

/// Whether the list runs downwards in `column`, and programs that tie are
/// the same.
pub open spec fn ordered_down(column: usize, programs: Seq<ProgramView>) -> bool {
    forall|i: int, j: int|
        0 <= i < j < programs.len() ==> {
            &&& key_le(column, #[trigger] programs[j], #[trigger] programs[i])
            &&& key_le(column, programs[i], programs[j]) ==> programs[i] == programs[j]
        }
}

/// Where `x` goes into a list that runs upwards: behind the last program
/// that comes no later than `x`.
pub open spec fn insert_at(column: usize, programs: Seq<ProgramView>, x: ProgramView) -> int
    decreases programs.len(),
{
    if programs.len() == 0 {
        0
    } else if key_le(column, programs.last(), x) {
        programs.len() as int
    } else {
        insert_at(column, programs.drop_last(), x)
    }
}

/// The list sorted upwards in `column`; programs that tie keep their order.
pub open spec fn sorted_by(column: usize, programs: Seq<ProgramView>) -> Seq<ProgramView>
    decreases programs.len(),
{
    if programs.len() == 0 {
        programs
    } else {
        let front = sorted_by(column, programs.drop_last());
        front.insert(insert_at(column, front, programs.last()), programs.last())
    }
}

/// The list in the order that `order` asks for. Downwards is upwards,
/// turned round.
pub open spec fn arranged(order: SortColumn, programs: Seq<ProgramView>) -> Seq<ProgramView> {
    match order {
        SortColumn::NoOrder => programs,
        SortColumn::Ascending(column) => sorted_by(column, programs),
        SortColumn::Descending(column) => sorted_by(column, programs).reverse(),
    }
}

/// Whether the list is already in the order that `order` asks for.
pub open spec fn settled(order: SortColumn, programs: Seq<ProgramView>) -> bool {
    match order {
        SortColumn::NoOrder => true,
        SortColumn::Ascending(column) => ordered(column, programs),
        SortColumn::Descending(column) => ordered_down(column, programs),
    }
}

/// The place where a program goes in lies within the list; what stands
/// before it comes no later, what stands behind it comes later.
pub proof fn lemma_insert_at(column: usize, programs: Seq<ProgramView>, x: ProgramView)
    requires
        ordered(column, programs),
    ensures
        0 <= insert_at(column, programs, x) <= programs.len(),
        forall|k: int|
            0 <= k < insert_at(column, programs, x) ==> key_le(column, #[trigger] programs[k], x),
        forall|k: int|
            insert_at(column, programs, x) <= k < programs.len() ==> !key_le(
                column,
                #[trigger] programs[k],
                x,
            ),
    decreases programs.len(),
{
    if programs.len() == 0 {
    } else if key_le(column, programs.last(), x) {
        assert forall|k: int| 0 <= k < programs.len() implies key_le(
            column,
            #[trigger] programs[k],
            x,
        ) by {
            if k < programs.len() - 1 {
                lemma_key_le_order(column, programs[k], programs.last(), x);
            }
        }
    } else {
        let front = programs.drop_last();
        lemma_insert_at(column, front, x);
        let at = insert_at(column, front, x);
        assert forall|k: int| 0 <= k < at implies key_le(column, #[trigger] programs[k], x) by {
            assert(programs[k] == front[k]);
        }
        assert forall|k: int| at <= k < programs.len() implies !key_le(
            column,
            #[trigger] programs[k],
            x,
        ) by {
            if k < front.len() {
                assert(programs[k] == front[k]);
            }
        }
    }
}

/// What sorting gives is as long as the list and runs upwards.
pub proof fn lemma_sorted_by_is_ordered(column: usize, programs: Seq<ProgramView>)
    ensures
        sorted_by(column, programs).len() == programs.len(),
        ordered(column, sorted_by(column, programs)),
    decreases programs.len(),
{
    if programs.len() > 0 {
        let x = programs.last();
        let front = sorted_by(column, programs.drop_last());
        lemma_sorted_by_is_ordered(column, programs.drop_last());
        lemma_insert_at(column, front, x);
        let at = insert_at(column, front, x);
        let all = front.insert(at, x);
        assert forall|i: int, j: int| 0 <= i < j < all.len() implies key_le(
            column,
            #[trigger] all[i],
            #[trigger] all[j],
        ) by {
            if i == at {
                lemma_key_le_order(column, x, front[j - 1], x);
            }
        }
    }
}

/// Sorting moves programs and neither adds nor drops one.
pub proof fn lemma_sorted_by_permutes(column: usize, programs: Seq<ProgramView>)
    ensures
        sorted_by(column, programs).to_multiset() == programs.to_multiset(),
    decreases programs.len(),
{
    if programs.len() > 0 {
        let x = programs.last();
        let rest = programs.drop_last();
        let front = sorted_by(column, rest);
        lemma_sorted_by_permutes(column, rest);
        lemma_sorted_by_is_ordered(column, rest);
        lemma_insert_at(column, front, x);
        vstd::seq_lib::to_multiset_insert(front, insert_at(column, front, x), x);
        vstd::seq_lib::to_multiset_build(rest, x);
        assert(rest.push(x) =~= programs);
    }
}

/// Whether two programs tie in `column`: each comes no later than the
/// other.
pub open spec fn tied(column: usize, a: ProgramView, b: ProgramView) -> bool {
    key_le(column, a, b) && key_le(column, b, a)
}

/// The programs of the list that tie with `x`, in the order of the list.
pub open spec fn ties_of(column: usize, programs: Seq<ProgramView>, x: ProgramView) -> Seq<
    ProgramView,
>
    decreases programs.len(),
{
    if programs.len() == 0 {
        Seq::empty()
    } else {
        let front = ties_of(column, programs.drop_last(), x);
        if tied(column, programs.last(), x) {
            front.push(programs.last())
        } else {
            front
        }
    }
}

/// A program that ties with `x` and goes into a list behind everything
/// that ties with `x` joins the ties of `x` at their end; one that does
/// not tie with `x` leaves them as they are.
proof fn lemma_ties_of_insert(
    column: usize,
    programs: Seq<ProgramView>,
    at: int,
    y: ProgramView,
    x: ProgramView,
)
    requires
        0 <= at <= programs.len(),
        tied(column, y, x) ==> forall|k: int|
            at <= k < programs.len() ==> !tied(column, #[trigger] programs[k], x),
    ensures
        ties_of(column, programs.insert(at, y), x) == if tied(column, y, x) {
            ties_of(column, programs, x).push(y)
        } else {
            ties_of(column, programs, x)
        },
    decreases programs.len(),
{
    let all = programs.insert(at, y);
    if at == programs.len() {
        assert(all.drop_last() =~= programs);
    } else {
        let front = programs.drop_last();
        assert(all.drop_last() =~= front.insert(at, y));
        assert(all.last() == programs.last());
        lemma_ties_of_insert(column, front, at, y, x);
    }
}

/// Sorting keeps the order of the programs that tie with one another.
pub proof fn lemma_sorted_by_stable(column: usize, programs: Seq<ProgramView>, x: ProgramView)
    ensures
        ties_of(column, sorted_by(column, programs), x) == ties_of(column, programs, x),
    decreases programs.len(),
{
    if programs.len() > 0 {
        let y = programs.last();
        let rest = programs.drop_last();
        let front = sorted_by(column, rest);
        lemma_sorted_by_stable(column, rest, x);
        lemma_sorted_by_is_ordered(column, rest);
        lemma_insert_at(column, front, y);
        let at = insert_at(column, front, y);
        if tied(column, y, x) {
            assert forall|k: int| at <= k < front.len() implies !tied(
                column,
                #[trigger] front[k],
                x,
            ) by {
                lemma_key_le_order(column, front[k], x, y);
            }
        }
        lemma_ties_of_insert(column, front, at, y, x);
    }
}

/// A list that runs upwards is its own sorted form.
pub proof fn lemma_sorted_by_of_ordered(column: usize, programs: Seq<ProgramView>)
    requires
        ordered(column, programs),
    ensures
        sorted_by(column, programs) == programs,
    decreases programs.len(),
{
    if programs.len() > 0 {
        let rest = programs.drop_last();
        lemma_sorted_by_of_ordered(column, rest);
    }
}

/// A list that runs downwards, with ties only between equal programs, is
/// its sorted form turned round.
pub proof fn lemma_sorted_by_of_ordered_down(column: usize, programs: Seq<ProgramView>)
    requires
        ordered_down(column, programs),
    ensures
        sorted_by(column, programs) == programs.reverse(),
    decreases programs.len(),
{
    if programs.len() > 0 {
        let x = programs.last();
        let rest = programs.drop_last();
        lemma_sorted_by_of_ordered_down(column, rest);
        let front = rest.reverse();
        lemma_sorted_by_is_ordered(column, rest);
        lemma_insert_at(column, front, x);
        let at = insert_at(column, front, x);
        assert forall|k: int| 0 <= k < at implies front[k] == x by {}
        let turned = programs.reverse();
        let all = front.insert(at, x);
        assert forall|i: int| 0 <= i < all.len() implies all[i] == turned[i] by {
            if i > 0 {
                assert(turned[i] == front[i - 1]);
            }
        }
    }
}

/// Turning a list round twice gives the list.
pub proof fn lemma_reverse_twice(programs: Seq<ProgramView>)
    ensures
        programs.reverse().reverse() == programs,
{
}

/// Arranging a list that is already in the order asked for changes nothing.
pub proof fn lemma_arranged_settled(order: SortColumn, programs: Seq<ProgramView>)
    requires
        settled(order, programs),
    ensures
        arranged(order, programs) == programs,
{
    match order {
        SortColumn::NoOrder => {},
        SortColumn::Ascending(column) => {
            lemma_sorted_by_of_ordered(column, programs);
        },
        SortColumn::Descending(column) => {
            lemma_sorted_by_of_ordered_down(column, programs);
            lemma_reverse_twice(programs);
        },
    }
}

/// Arranging twice in an upward order, or in none, is arranging once.
pub proof fn lemma_arranged_twice(order: SortColumn, programs: Seq<ProgramView>)
    requires
        !(order is Descending),
    ensures
        arranged(order, arranged(order, programs)) == arranged(order, programs),
{
    match order {
        SortColumn::Ascending(column) => {
            lemma_sorted_by_is_ordered(column, programs);
            lemma_sorted_by_of_ordered(column, sorted_by(column, programs));
        },
        _ => {},
    }
}

/// Arranging moves programs and neither adds nor drops one.
pub proof fn lemma_arranged_permutes(order: SortColumn, programs: Seq<ProgramView>)
    ensures
        arranged(order, programs).to_multiset() == programs.to_multiset(),
        arranged(order, programs).len() == programs.len(),
{
    match order {
        SortColumn::NoOrder => {},
        SortColumn::Ascending(column) => {
            lemma_sorted_by_permutes(column, programs);
            lemma_sorted_by_is_ordered(column, programs);
        },
        SortColumn::Descending(column) => {
            lemma_sorted_by_permutes(column, programs);
            lemma_sorted_by_is_ordered(column, programs);
            sorted_by(column, programs).lemma_reverse_to_multiset();
        },
    }
}

/// Whether `a` comes no later than `b` in `column`.
pub fn program_le(column: usize, a: &BpfProgram, b: &BpfProgram) -> (r: bool)
    requires
        a@.wf(),
        b@.wf(),
    ensures
        r == key_le(column, a@, b@),
{
    if column == 1 {
        str_le(a.bpf_type.as_str(), b.bpf_type.as_str())
    } else if column == 2 {
        str_le(a.name.as_str(), b.name.as_str())
    } else if column == 3 {
        a.period_average_runtime_ns() <= b.period_average_runtime_ns()
    } else if column == 4 {
        a.total_average_runtime_ns() <= b.total_average_runtime_ns()
    } else if column == 5 {
        a.events_per_second() <= b.events_per_second()
    } else if column == 6 {
        a.cpu_time_percent().le(&b.cpu_time_percent())
    } else {
        a.id <= b.id
    }
}

/// Sorts the list upwards in `column`, keeping the order of ties.
pub fn sort_ascending(items: &mut Vec<BpfProgram>, column: usize)
    requires
        all_wf(views(old(items)@)),
    ensures
        views(final(items)@) == sorted_by(column, views(old(items)@)),
{
    let ghost start = items@;
    let mut sorted: Vec<BpfProgram> = Vec::new();
    let mut rest: Vec<BpfProgram> = Vec::new();
    std::mem::swap(items, &mut rest);
    while rest.len() > 0
        invariant
            all_wf(views(start)),
            rest.len() <= start.len(),
            rest@ == start.subrange(start.len() - rest.len(), start.len() as int),
            views(sorted@) == sorted_by(column, views(start.subrange(0, start.len() - rest.len()))),
            all_wf(views(sorted@)),
        decreases rest.len(),
    {
        let ghost done = start.len() - rest.len();
        let ghost before = views(sorted@);
        let x = rest.remove(0);
        assert(views(start)[done].wf());
        let mut at: usize = sorted.len();
        assert(views(sorted@).subrange(0, sorted.len() as int) =~= views(sorted@));
        while at > 0 && !program_le(column, &sorted[at - 1], &x)
            invariant
                at <= sorted.len(),
                x@.wf(),
                all_wf(views(sorted@)),
                insert_at(column, views(sorted@), x@) == insert_at(
                    column,
                    views(sorted@).subrange(0, at as int),
                    x@,
                ),
            decreases at,
        {
            assert(views(sorted@).subrange(0, at as int).drop_last() =~= views(sorted@).subrange(
                0,
                at - 1,
            ));
            at -= 1;
        }
        assert(at == insert_at(column, before, x@));
        sorted.insert(at, x);
        proof {
            let upto = start.subrange(0, done + 1);
            assert(views(upto).drop_last() =~= views(start.subrange(0, done)));
            assert(views(sorted@) =~= before.insert(at as int, x@));
        }
    }
    assert(start.subrange(0, start.len() as int) =~= start);
    *items = sorted;
}

/// Turns the list round.
pub fn reverse_programs(items: &mut Vec<BpfProgram>)
    ensures
        final(items)@ == old(items)@.reverse(),
{
    let ghost start = items@;
    let mut turned: Vec<BpfProgram> = Vec::new();
    while items.len() > 0
        invariant
            items.len() <= start.len(),
            items@ == start.subrange(0, items.len() as int),
            turned.len() == start.len() - items.len(),
            forall|k: int| 0 <= k < turned.len() ==> turned[k] == start[start.len() - 1 - k],
        decreases items.len(),
    {
        let x = items.pop().unwrap();
        turned.push(x);
    }
    *items = turned;
}

/// Puts the list in the order that `order` asks for.
pub fn sort_programs(items: &mut Vec<BpfProgram>, order: SortColumn)
    requires
        all_wf(views(old(items)@)),
    ensures
        views(final(items)@) == arranged(order, views(old(items)@)),
{
    match order {
        SortColumn::NoOrder => {},
        SortColumn::Ascending(column) => {
            sort_ascending(items, column);
        },
        SortColumn::Descending(column) => {
            sort_ascending(items, column);
            reverse_programs(items);
        },
    }
}

} // verus!

use crate::action::{Action, FindOptions, Key, Outcome, Request};
use crate::context::MongoContext;
use crate::model::{lemma_toggled_flips, toggled};
use crate::popup::PopupState;
use crate::query::{document_text_ok, has_next_page, limit_of, limit_text_ok, options_for, QueryField};
use crate::registry::{next_pos, PaneRegistry};
use crate::viewer::{input_ok, page_after, query_step, refresh_step, MongoViewer};
use vstd::prelude::*;

verus! {

/// The position of the focus after `n` moves to the next pane, starting on
/// the first of `len` panes.
pub open spec fn position_after_cycles(len: int, n: nat) -> int
    decreases n,
{
    if n == 0 {
        0
    } else {
        next_pos(Some(position_after_cycles(len, (n - 1) as nat)), len)
    }
}

/// After `n` moves of the focus from the first pane, the focus is on the pane
/// at position `n mod len` of the registration order.
pub proof fn lemma_cycles_follow_registration_order(len: int, n: nat)
    requires
        len > 0,
    ensures
        position_after_cycles(len, n) == (n as int) % len,
    decreases n,
{
    if n == 0 {
        assert(0int % len == 0) by (nonlinear_arith)
            requires
                len > 0,
        ;
    } else {
        lemma_cycles_follow_registration_order(len, (n - 1) as nat);
        let m = (n - 1) as int;
        assert(((m % len) + 1) % len == (m + 1) % len) by {
            vstd::arithmetic::div_mod::lemma_add_mod_noop(m, 1, len);
            vstd::arithmetic::div_mod::lemma_mod_twice(m, len);
            if len == 1 {
                vstd::arithmetic::div_mod::lemma_mod_self_0(1);
                assert(((m % len) + 1) % len == 0) by (nonlinear_arith)
                    requires
                        len == 1,
                ;
                assert((m + 1) % len == 0) by (nonlinear_arith)
                    requires
                        len == 1,
                ;
            } else {
                vstd::arithmetic::div_mod::lemma_small_mod(1, len as nat);
            }
        }
    }
}

/// Over a run of registries each of which is what `cycle_next` leaves of the
/// one before, starting with the focus on the first pane: after `k` moves the
/// focus is on the pane at position `k mod len` of the registration order.
pub proof fn lemma_cycle_run_follows_registration_order(run: Seq<PaneRegistry>)
    requires
        run.len() > 0,
        run[0].panes@.len() > 0,
        run[0].active_pos() == Some(0int),
        forall|k: int|
            0 <= k < run.len() - 1 ==> #[trigger] run[k + 1].panes == run[k].panes
                && run[k + 1].active_pos() == Some(
                next_pos(run[k].active_pos(), run[k].panes@.len() as int),
            ),
    ensures
        forall|k: int|
            0 <= k < run.len() ==> #[trigger] run[k].active_pos() == Some(
                k % (run[0].panes@.len() as int),
            ),
{
    let len = run[0].panes@.len() as int;
    assert forall|k: int| 0 <= k < run.len() implies #[trigger] run[k].active_pos() == Some(
        k % len,
    ) by {
        lemma_cycle_run_prefix(run, k, len);
        lemma_cycles_follow_registration_order(len, k as nat);
        assert((k as nat) as int == k);
    }
}

proof fn lemma_cycle_run_prefix(run: Seq<PaneRegistry>, k: int, len: int)
    requires
        0 <= k < run.len(),
        len == run[0].panes@.len(),
        len > 0,
        run[0].active_pos() == Some(0int),
        forall|j: int|
            0 <= j < run.len() - 1 ==> #[trigger] run[j + 1].panes == run[j].panes
                && run[j + 1].active_pos() == Some(
                next_pos(run[j].active_pos(), run[j].panes@.len() as int),
            ),
    ensures
        run[k].panes@.len() == len,
        run[k].active_pos() == Some(position_after_cycles(len, k as nat)),
    decreases k,
{
    if k > 0 {
        lemma_cycle_run_prefix(run, k - 1, len);
        assert(run[(k - 1) + 1].panes == run[k - 1].panes);
    }
    lemma_cycles_follow_registration_order(len, k as nat);
}

/// Whenever `RefreshDocuments` asks for a fetch, the fetch skips the current
/// page times the page size and asks for one page.
pub proof fn lemma_every_fetch_skips_page_times_limit(before: MongoViewer, after: MongoViewer, r: Outcome)
    requires
        refresh_step(before, after, r),
        r.request is Some,
    ensures
        r.request matches Some(Request::FetchDocuments(q)) && q.options.skip == Some(
            (before.context.pagination.current_page * limit_of(before.context.limit_input@)) as u64,
        ) && q.options.limit == Some(limit_of(before.context.limit_input@) as i64),
{
}

/// A fetch composed for page `p` skips `p` times the page size.
pub proof fn lemma_skip_is_page_times_limit(
    options: FindOptions,
    filter: Seq<char>,
    sort: Seq<char>,
    projection: Seq<char>,
    limit: Seq<char>,
    page: int,
)
    requires
        options_for(options, filter, sort, projection, limit, page),
    ensures
        options.skip == Some((page * limit_of(limit)) as u64),
        options.limit == Some(limit_of(limit) as i64),
{
}

/// `NextPage` goes nowhere when the next page would start at or after the
/// last matching document.
pub proof fn lemma_no_page_past_the_end(ctx: MongoContext)
    requires
        ctx.pagination.total_count is Some,
        limit_text_ok(ctx.limit_input@),
        (ctx.pagination.current_page + 1) * limit_of(ctx.limit_input@)
            >= ctx.pagination.total_count->Some_0,
    ensures
        page_after(ctx) is None,
{
    assert(!has_next_page(
        ctx.pagination.current_page as int,
        limit_of(ctx.limit_input@),
        ctx.pagination.total_count->Some_0 as int,
    ));
}

/// Toggling a field takes it off a list that showed it and puts it on one
/// that did not; the list sent to the documents pane is that toggled list.
pub proof fn lemma_toggle_flips_visibility(visible: Seq<Seq<char>>, field: Seq<char>)
    ensures
        toggled(visible, field).contains(field) == !visible.contains(field),
{
    lemma_toggled_flips(visible, field);
}

/// Submitting the query builder with a filter that is not a JSON object, and
/// every other input acceptable, keeps the builder open, marks the filter
/// alone, and asks for no documents.
pub proof fn lemma_bad_filter_keeps_builder_open(
    f: QueryField,
    before: MongoContext,
    after: MongoContext,
    popup: PopupState,
    out: Option<Action>,
)
    requires
        query_step(f, Key::Enter, before, after, popup, out),
        !document_text_ok(before.query_input@),
        document_text_ok(before.sort_input@),
        document_text_ok(before.projection_input@),
        limit_text_ok(before.limit_input@),
    ensures
        popup == (PopupState::QueryBuilder { active_field: f }),
        out == Some(Action::Render),
        after.input_validation_errors.marked(QueryField::Filter),
        !after.input_validation_errors.marked(QueryField::Sort),
        !after.input_validation_errors.marked(QueryField::Projection),
        !after.input_validation_errors.marked(QueryField::Limit),
        after.pagination == before.pagination,
{
    assert(!input_ok(before, QueryField::Filter));
    assert(input_ok(before, QueryField::Sort));
    assert(input_ok(before, QueryField::Projection));
    assert(input_ok(before, QueryField::Limit));
}

} // verus!

//! What holds of every course of a command.

use vstd::prelude::*;
use crate::cli::flow::{
    accepts, begin, listed, parameter_rows_of, secret_rows_of, call, done, fail, named, next_spec, put_next, quoted, start_spec, wf, ActionView,
    Event, FlowView, OutputView, RequestView, RowView, StepView, Target,
};
use crate::opt::{Command, GlobalOpts, ParCommand, SecCommand};
use crate::specs::{apply_plan_spec, ParameterStore};
use crate::errors::{create_failure_view, failure_view, ErrorView, ServiceError};
use crate::cli::par::{ParameterEntry, ParameterType};
use crate::cli::sec::{detail_lines, SecretDetails, SecretEntry};

verus! {

/// Whether an action deletes something without the recovery window being
/// skipped on request: an unforced secret delete, or a parameter delete.
pub open spec fn unforced_delete(a: ActionView, name: Seq<char>) -> bool {
    ||| (a matches ActionView::Call(RequestView::DeleteSecret(n, _, force), _) && n == name && force != Some(true))
    ||| (a matches ActionView::Call(RequestView::DeleteParameter(n), _) && n == name)
}

/// No command starts by deleting, unless it is a secret delete with the
/// recovery window skipped (`--force`).
pub proof fn lemma_start_never_deletes_unasked(command: Command, global: GlobalOpts, name: Seq<char>)
    ensures
        !unforced_delete(start_spec(command, global).1.action, name),
{
}

/// A delete, other than a forced secret delete, is only ever made right after
/// the user answered yes to deleting that very name.
pub proof fn lemma_delete_needs_confirmation(f: FlowView, event: Event, name: Seq<char>)
    requires
        wf(f),
        accepts(f, event),
        unforced_delete(next_spec(f, event).1.action, name),
    ensures
        f matches FlowView::Confirming(_, n) && n == name,
        event matches Event::Confirmed(Ok(yes)) && yes,
{
}

/// Every delete confirmation is asked with "no" preset as the answer, at the
/// start of a command and at every later step.
pub proof fn lemma_confirmation_defaults_to_no(command: Command, global: GlobalOpts, f: FlowView, event: Event)
    requires
        wf(f),
        accepts(f, event),
    ensures
        start_spec(command, global).1.action matches ActionView::Confirm(_, _, d) ==> !d,
        next_spec(f, event).1.action matches ActionView::Confirm(_, _, d) ==> !d,
{
}

/// Declining the confirmation deletes nothing: the command ends, successfully,
/// showing that it was aborted.
pub proof fn lemma_declined_delete_aborts(target: Target, name: Seq<char>)
    ensures
        next_spec(FlowView::Confirming(target, name), Event::Confirmed(Ok(false)))
            == done(seq![OutputView::Text("Aborted."@)]),
{
}

/// `sec delete --force` with a name deletes that secret at once, skipping the
/// recovery window and the confirmation.
pub proof fn lemma_forced_delete_is_immediate(name: String, global: GlobalOpts)
    ensures
        ({
            let n = name@;
            start_spec(Command::Secret { command: SecCommand::Delete { name: Some(name), force: true } }, global).1
                == call(RequestView::DeleteSecret(n, None, Some(true)), quoted("Deleting "@, n, "…"@))
        }),
{
}

/// Whether a call deletes a secret in one of the two ways offered: with the
/// seven-day recovery window, or, on request, at once without recovery.
pub open spec fn secret_delete_kept_or_forced(a: ActionView) -> bool {
    a matches ActionView::Call(RequestView::DeleteSecret(_, window, force), _) ==> (
        (window == Some(7i64) && force is None) || (window is None && force == Some(true)))
}

/// A secret is deleted with a seven-day recovery window, unless `--force`
/// asked for deletion without recovery; after the start, a deletion without
/// recovery follows only the choice of a secret for `--force`.
pub proof fn lemma_secret_delete_window(command: Command, global: GlobalOpts, f: FlowView, event: Event)
    requires
        wf(f),
        accepts(f, event),
    ensures
        secret_delete_kept_or_forced(start_spec(command, global).1.action),
        secret_delete_kept_or_forced(next_spec(f, event).1.action),
        next_spec(f, event).1.action matches ActionView::Call(RequestView::DeleteSecret(_, _, force), _)
            ==> (force == Some(true) ==> f == FlowView::Choosing(Target::DeleteSecret { force: true }, f->Choosing_1)),
{
}

/// Whether an action lists secrets or parameters or asks to choose.
pub open spec fn lists_or_selects(a: ActionView) -> bool {
    ||| (a matches ActionView::Call(RequestView::ListSecrets, _))
    ||| (a matches ActionView::Call(RequestView::DescribeParameters, _))
    ||| a is Select
}

/// With `--name` given, a command works on that name at once: nothing is
/// listed and nothing is selected; without it, the names are listed first.
pub proof fn lemma_given_name_is_used(target: Target, name: Option<String>)
    ensures
        name matches Some(n) ==> named(target, name) == begin(target, n@)
            && !lists_or_selects(begin(target, n@).1.action),
        name is None ==> lists_or_selects(named(target, name).1.action),
{
}

/// The item the user chooses is the name the command then works on.
pub proof fn lemma_choice_is_used(target: Target, items: Seq<Seq<char>>, i: usize)
    requires
        i < items.len(),
    ensures
        next_spec(FlowView::Choosing(target, items), Event::Selected(Ok(i))) == begin(target, items[i as int]),
{
}

/// For a failed reply of the service, the error it ends the command with:
/// a failed create or put gives `CreateFail`; any other failed call gives
/// `NotFound` when the service found no such secret or parameter, else
/// `AwsSdk`; each with the SDK's message. `None` for any other event.
pub open spec fn failure_of(event: Event) -> Option<ErrorView> {
    match event {
        Event::SecretPage(Err(e)) => Some(failure_view(e)),
        Event::ParameterPage(Err(e)) => Some(failure_view(e)),
        Event::SecretValue(Err(e)) => Some(failure_view(e)),
        Event::SecretDescribed(Err(e)) => Some(failure_view(e)),
        Event::SecretCreated(Err(e)) => Some(create_failure_view(e)),
        Event::SecretDeleted(Err(e)) => Some(failure_view(e)),
        Event::ParameterValue(Err(e)) => Some(failure_view(e)),
        Event::ParameterPut(Err(e)) => Some(create_failure_view(e)),
        Event::ParameterDeleted(Err(e)) => Some(failure_view(e)),
        _ => None,
    }
}

/// A failed call to the service ends the command at once, showing nothing,
/// with the error that [`failure_of`] gives: the SDK's message unchanged, in
/// `CreateFail` for a create or put, `NotFound` for a missing secret or
/// parameter, `AwsSdk` otherwise.
pub proof fn lemma_service_failure_ends(f: FlowView, event: Event)
    requires
        accepts(f, event),
        failure_of(event) is Some,
    ensures
        next_spec(f, event) == fail(failure_of(event).unwrap()),
{
}

/// Asking for a secret or parameter that does not exist ends the command with
/// `NotFound` and the SDK's message; a create or put that the service refuses
/// (a name already taken, a permission missing) ends it with `CreateFail`.
pub proof fn lemma_failure_kinds(f: FlowView, event: Event, m: String)
    requires
        accepts(f, event),
    ensures
        event == Event::SecretValue(Err(ServiceError::NotFound(m)))
            ==> next_spec(f, event) == fail(ErrorView::NotFound(m@)),
        event == Event::ParameterValue(Err(ServiceError::NotFound(m)))
            ==> next_spec(f, event) == fail(ErrorView::NotFound(m@)),
        event == Event::SecretDescribed(Err(ServiceError::NotFound(m)))
            ==> next_spec(f, event) == fail(ErrorView::NotFound(m@)),
        event == Event::SecretDeleted(Err(ServiceError::NotFound(m)))
            ==> next_spec(f, event) == fail(ErrorView::NotFound(m@)),
        event == Event::ParameterDeleted(Err(ServiceError::NotFound(m)))
            ==> next_spec(f, event) == fail(ErrorView::NotFound(m@)),
        (event == Event::SecretCreated(Err(ServiceError::Other(m)))
            || event == Event::SecretCreated(Err(ServiceError::NotFound(m))))
            ==> next_spec(f, event) == fail(ErrorView::CreateFail(m@)),
        (event == Event::ParameterPut(Err(ServiceError::Other(m)))
            || event == Event::ParameterPut(Err(ServiceError::NotFound(m))))
            ==> next_spec(f, event) == fail(ErrorView::CreateFail(m@)),
{
}

/// The course of a flow in state `f` over the replies `events`: where it
/// ends up and the steps it takes.
pub open spec fn course(f: FlowView, events: Seq<Event>) -> (FlowView, Seq<StepView>)
    decreases events.len(),
{
    if events.len() == 0 {
        (f, seq![])
    } else {
        let (g, s) = next_spec(f, events[0]);
        let (h, rest) = course(g, events.drop_first());
        (h, seq![s] + rest)
    }
}

/// `count` successful puts.
pub open spec fn puts_ok(count: nat) -> Seq<Event> {
    Seq::new(count, |i: int| Event::ParameterPut(Ok(())))
}

/// A course over one event is that event's step.
pub proof fn lemma_course_one(f: FlowView, event: Event)
    ensures
        course(f, seq![event]) == (next_spec(f, event).0, seq![next_spec(f, event).1]),
{
    let events = seq![event];
    let (g, s) = next_spec(f, event);
    assert(events.drop_first() =~= Seq::<Event>::empty());
    assert(course(g, events.drop_first()) == (g, Seq::<StepView>::empty()));
    assert(seq![s] + Seq::<StepView>::empty() =~= seq![s]);
}

/// A course over `a` then `b` is the course over `a`, continued over `b`.
pub proof fn lemma_course_append(f: FlowView, a: Seq<Event>, b: Seq<Event>)
    ensures
        ({
            let (g, s1) = course(f, a);
            let (h, s2) = course(g, b);
            course(f, a + b) == (h, s1 + s2)
        }),
    decreases a.len(),
{
    if a.len() == 0 {
        assert(a + b =~= b);
        assert(Seq::<StepView>::empty() + course(f, b).1 =~= course(f, b).1);
    } else {
        let (g, s) = next_spec(f, a[0]);
        assert((a + b)[0] == a[0]);
        assert((a + b).drop_first() =~= a.drop_first() + b);
        lemma_course_append(g, a.drop_first(), b);
        let (g2, s1) = course(g, a.drop_first());
        let (h, s2) = course(g2, b);
        assert(seq![s] + (s1 + s2) =~= (seq![s] + s1) + s2);
    }
}

/// From the put of `plan[k]`, `m` successful puts go on through the plan:
/// after the `j`-th success comes `put_next(plan, k + 1 + j)`.
proof fn lemma_course_puts(plan: Seq<(Seq<char>, Seq<char>)>, k: int, m: nat)
    requires
        0 <= k < plan.len(),
        k + m <= plan.len(),
    ensures
        course(FlowView::Applying(plan, k), puts_ok(m)).1.len() == m,
        forall|j: int| 0 <= j < m ==> #[trigger] course(FlowView::Applying(plan, k), puts_ok(m)).1[j] == put_next(plan, k + 1 + j).1,
        course(FlowView::Applying(plan, k), puts_ok(m)).0 == put_next(plan, k + m).0,
    decreases m,
{
    let f = FlowView::Applying(plan, k);
    if m > 0 {
        let events = puts_ok(m);
        assert(events[0] == Event::ParameterPut(Ok(())));
        assert(events.drop_first() =~= puts_ok((m - 1) as nat));
        assert(next_spec(f, events[0]) == put_next(plan, k + 1));
        let (g, s) = put_next(plan, k + 1);
        if k + 1 < plan.len() {
            lemma_course_puts(plan, k + 1, (m - 1) as nat);
            let rest = course(g, puts_ok((m - 1) as nat)).1;
            assert forall|j: int| 0 <= j < m implies #[trigger] course(f, events).1[j] == put_next(plan, k + 1 + j).1 by {
                if j > 0 {
                    assert(course(f, events).1[j] == rest[j - 1]);
                }
            }
        } else {
            assert(m == 1);
            assert(events =~= seq![Event::ParameterPut(Ok(()))]);
            lemma_course_one(f, Event::ParameterPut(Ok(())));
        }
    } else {
        assert(puts_ok(0) =~= Seq::<Event>::empty());
    }
}

/// Applying a spec file puts the valid entries of the file, split at their
/// first colon, in the order of the file, one call each: after the file is
/// read and `m` puts have succeeded, the course has taken the steps
/// `put_next(plan, 0)`, ..., `put_next(plan, m)`, that is, the puts of
/// `plan[0]` to `plan[m]`, or, after the last one, the success notice.
pub proof fn lemma_apply_puts_in_order(store: ParameterStore, m: nat)
    requires
        m <= apply_plan_spec(store.parameters.deep_view()).len(),
    ensures
        ({
            let plan = apply_plan_spec(store.parameters.deep_view());
            let (g, steps) = course(FlowView::ReadingSpec, seq![Event::SpecRead(Ok(store))] + puts_ok(m));
            &&& steps.len() == m + 1
            &&& forall|j: int| 0 <= j <= m ==> #[trigger] steps[j] == put_next(plan, j).1
            &&& g == put_next(plan, m as int).0
        }),
{
    let plan = apply_plan_spec(store.parameters.deep_view());
    let first = seq![Event::SpecRead(Ok(store))];
    lemma_course_append(FlowView::ReadingSpec, first, puts_ok(m));
    lemma_course_one(FlowView::ReadingSpec, Event::SpecRead(Ok(store)));
    let (g0, s0) = put_next(plan, 0);
    if plan.len() == 0 {
        assert(puts_ok(0) =~= Seq::<Event>::empty());
        assert(seq![s0] + Seq::<StepView>::empty() =~= seq![s0]);
    } else {
        lemma_course_puts(plan, 0, m);
        let steps = course(FlowView::ReadingSpec, first + puts_ok(m)).1;
        let rest = course(g0, puts_ok(m)).1;
        assert(steps == seq![s0] + rest);
        assert forall|j: int| 0 <= j <= m implies #[trigger] steps[j] == put_next(plan, j).1 by {
            if j > 0 {
                assert(steps[j] == rest[j - 1]);
            }
        }
    }
}

/// A failed put ends the apply with `CreateFail` and the SDK's message: the
/// entries after it are not put.
pub proof fn lemma_apply_stops_at_failure(store: ParameterStore, m: nat, e: ServiceError)
    requires
        m < apply_plan_spec(store.parameters.deep_view()).len(),
    ensures
        ({
            let plan = apply_plan_spec(store.parameters.deep_view());
            let events = seq![Event::SpecRead(Ok(store))] + puts_ok(m) + seq![Event::ParameterPut(Err(e))];
            let (g, steps) = course(FlowView::ReadingSpec, events);
            &&& steps.len() == m + 2
            &&& forall|j: int| 0 <= j <= m ==> #[trigger] steps[j] == put_next(plan, j).1
            &&& (g, steps.last()) == fail(ErrorView::CreateFail(e.message()))
        }),
{
    let plan = apply_plan_spec(store.parameters.deep_view());
    let a = seq![Event::SpecRead(Ok(store))] + puts_ok(m);
    let b = seq![Event::ParameterPut(Err(e))];
    lemma_apply_puts_in_order(store, m);
    lemma_course_append(FlowView::ReadingSpec, a, b);
    let (g, s1) = course(FlowView::ReadingSpec, a);
    assert(g == FlowView::Applying(plan, m as int));
    lemma_course_one(g, Event::ParameterPut(Err(e)));
    let (h, s2) = course(g, b);
    let steps = s1 + s2;
    assert forall|j: int| 0 <= j <= m implies #[trigger] steps[j] == put_next(plan, j).1 by {
        assert(steps[j] == s1[j]);
    }
}

/// The replies that hand over `pages`, one page each.
pub open spec fn page_events(pages: Seq<Vec<ParameterEntry>>) -> Seq<Event> {
    pages.map_values(|p: Vec<ParameterEntry>| Event::ParameterPage(Ok(Some(p))))
}

/// The listing rows of `pages`, page after page.
pub open spec fn rows_of_pages(pages: Seq<Vec<ParameterEntry>>) -> Seq<RowView>
    decreases pages.len(),
{
    if pages.len() == 0 {
        seq![]
    } else {
        parameter_rows_of(pages[0]) + rows_of_pages(pages.drop_first())
    }
}

proof fn lemma_pages_gathered(rows: Seq<RowView>, pages: Seq<Vec<ParameterEntry>>)
    ensures
        course(FlowView::ListingParameters(rows), page_events(pages)).0
            == FlowView::ListingParameters(rows + rows_of_pages(pages)),
    decreases pages.len(),
{
    if pages.len() == 0 {
        assert(page_events(pages) =~= Seq::<Event>::empty());
        assert(rows + Seq::<RowView>::empty() =~= rows);
    } else {
        let events = page_events(pages);
        assert(events[0] == Event::ParameterPage(Ok(Some(pages[0]))));
        assert(events.drop_first() =~= page_events(pages.drop_first()));
        let more = rows + parameter_rows_of(pages[0]);
        lemma_pages_gathered(more, pages.drop_first());
        assert(more + rows_of_pages(pages.drop_first()) =~= rows + rows_of_pages(pages));
    }
}

/// `par list` shows every parameter of every page, in the order of the
/// pages, however many pages the service hands over.
pub proof fn lemma_listing_shows_all_pages(pages: Seq<Vec<ParameterEntry>>)
    ensures
        ({
            let all = rows_of_pages(pages);
            let events = page_events(pages) + seq![Event::ParameterPage(Ok(None))];
            let (g, steps) = course(FlowView::ListingParameters(seq![]), events);
            (g, steps.last()) == listed(OutputView::ParametersTable(all), all.len(), "parameter"@, "No parameters found."@)
        }),
{
    let all = rows_of_pages(pages);
    lemma_pages_gathered(seq![], pages);
    assert(Seq::<RowView>::empty() + all =~= all);
    let start = FlowView::ListingParameters(seq![]);
    lemma_course_append(start, page_events(pages), seq![Event::ParameterPage(Ok(None))]);
    let (g, s1) = course(start, page_events(pages));
    lemma_course_one(g, Event::ParameterPage(Ok(None)));
}

/// The replies that hand over pages of secrets, one page each.
pub open spec fn secret_page_events(pages: Seq<Vec<SecretEntry>>) -> Seq<Event> {
    pages.map_values(|p: Vec<SecretEntry>| Event::SecretPage(Ok(Some(p))))
}

/// The listing rows of pages of secrets, page after page.
pub open spec fn rows_of_secret_pages(pages: Seq<Vec<SecretEntry>>) -> Seq<RowView>
    decreases pages.len(),
{
    if pages.len() == 0 {
        seq![]
    } else {
        secret_rows_of(pages[0]) + rows_of_secret_pages(pages.drop_first())
    }
}

proof fn lemma_secret_pages_gathered(rows: Seq<RowView>, pages: Seq<Vec<SecretEntry>>)
    ensures
        course(FlowView::ListingSecrets(rows), secret_page_events(pages)).0
            == FlowView::ListingSecrets(rows + rows_of_secret_pages(pages)),
    decreases pages.len(),
{
    if pages.len() == 0 {
        assert(secret_page_events(pages) =~= Seq::<Event>::empty());
        assert(rows + Seq::<RowView>::empty() =~= rows);
    } else {
        let events = secret_page_events(pages);
        assert(events[0] == Event::SecretPage(Ok(Some(pages[0]))));
        assert(events.drop_first() =~= secret_page_events(pages.drop_first()));
        let more = rows + secret_rows_of(pages[0]);
        lemma_secret_pages_gathered(more, pages.drop_first());
        assert(more + rows_of_secret_pages(pages.drop_first()) =~= rows + rows_of_secret_pages(pages));
    }
}

/// `sec list` shows every secret of every page, in the order of the pages,
/// however many pages the service hands over.
pub proof fn lemma_secret_listing_shows_all_pages(pages: Seq<Vec<SecretEntry>>)
    ensures
        ({
            let all = rows_of_secret_pages(pages);
            let events = secret_page_events(pages) + seq![Event::SecretPage(Ok(None))];
            let (g, steps) = course(FlowView::ListingSecrets(seq![]), events);
            (g, steps.last()) == listed(OutputView::SecretsTable(all), all.len(), "secret"@, "No secrets found."@)
        }),
{
    let all = rows_of_secret_pages(pages);
    lemma_secret_pages_gathered(seq![], pages);
    assert(Seq::<RowView>::empty() + all =~= all);
    let start = FlowView::ListingSecrets(seq![]);
    lemma_course_append(start, secret_page_events(pages), seq![Event::SecretPage(Ok(None))]);
    let (g, s1) = course(start, secret_page_events(pages));
    lemma_course_one(g, Event::SecretPage(Ok(None)));
}

/// The text of an optional reply field, or `fallback` where the reply lacks it.
pub open spec fn given_or(field: Option<String>, fallback: Seq<char>) -> Seq<char> {
    if field is Some { field->0@ } else { fallback }
}

/// The details of a secret end with its rotation: `enabled` exactly when the
/// reply says rotation is enabled (`Some(true)`), `disabled` when it says it
/// is not (`Some(false)`) or says nothing (`None`); `sec describe` shows
/// these lines, in this order.
pub proof fn lemma_rotation_line(d: SecretDetails, target: Target, name: Seq<char>)
    ensures
        detail_lines(d).len() == 7,
        d.rotation_enabled == Some(true) ==> detail_lines(d)[6] == "  Rotation      : "@ + "enabled"@,
        d.rotation_enabled == Some(false) ==> detail_lines(d)[6] == "  Rotation      : "@ + "disabled"@,
        d.rotation_enabled is None ==> detail_lines(d)[6] == "  Rotation      : "@ + "disabled"@,
        ({
            let out = next_spec(FlowView::Awaiting(target, name), Event::SecretDescribed(Ok(d))).1.output;
            &&& out.len() == 7
            &&& d.rotation_enabled == Some(true) ==> out[6] == OutputView::Text("  Rotation      : "@ + "enabled"@)
            &&& d.rotation_enabled != Some(true) ==> out[6] == OutputView::Text("  Rotation      : "@ + "disabled"@)
        }),
{
}

/// Each row of a page of parameters shows that parameter's own name, type and
/// last-modified date as the service gave them (`unknown`, `unknown` and
/// empty where the reply lacks them), in the order of the page; and `par list`
/// appends exactly these rows to the rows of the earlier pages.
pub proof fn lemma_parameter_rows_keep_fields(rows: Seq<RowView>, page: Vec<ParameterEntry>)
    ensures
        parameter_rows_of(page).len() == page@.len(),
        forall|i: int| 0 <= i < page@.len() ==> {
            let row = #[trigger] parameter_rows_of(page)[i];
            &&& row.0 == given_or(page@[i].name, "unknown"@)
            &&& row.1 == given_or(page@[i].kind, "unknown"@)
            &&& row.2 == given_or(page@[i].last_modified, Seq::empty())
        },
        ({
            let f = next_spec(FlowView::ListingParameters(rows), Event::ParameterPage(Ok(Some(page)))).0;
            &&& f matches FlowView::ListingParameters(all)
            &&& f->ListingParameters_0.len() == rows.len() + page@.len()
            &&& forall|i: int| 0 <= i < rows.len() ==> f->ListingParameters_0[i] == rows[i]
            &&& forall|i: int| 0 <= i < page@.len() ==> {
                let row = #[trigger] f->ListingParameters_0[rows.len() + i];
                &&& row.0 == given_or(page@[i].name, "unknown"@)
                &&& row.1 == given_or(page@[i].kind, "unknown"@)
                &&& row.2 == given_or(page@[i].last_modified, Seq::empty())
            }
        }),
{
    let f = next_spec(FlowView::ListingParameters(rows), Event::ParameterPage(Ok(Some(page)))).0;
    assert forall|i: int| 0 <= i < page@.len() implies {
        let row = #[trigger] f->ListingParameters_0[rows.len() + i];
        &&& row.0 == given_or(page@[i].name, "unknown"@)
        &&& row.1 == given_or(page@[i].kind, "unknown"@)
        &&& row.2 == given_or(page@[i].last_modified, Seq::empty())
    } by {
        assert(f->ListingParameters_0[rows.len() + i] == parameter_rows_of(page)[i]);
    }
}

/// Each row of a page of secrets shows that secret's own name, ARN and
/// last-changed date as the service gave them (`unknown`, empty and empty
/// where the reply lacks them), in the order of the page.
pub proof fn lemma_secret_rows_keep_fields(page: Vec<SecretEntry>)
    ensures
        secret_rows_of(page).len() == page@.len(),
        forall|i: int| 0 <= i < page@.len() ==> {
            let row = #[trigger] secret_rows_of(page)[i];
            &&& row.0 == given_or(page@[i].name, "unknown"@)
            &&& row.1 == given_or(page@[i].arn, Seq::empty())
            &&& row.2 == given_or(page@[i].last_changed, Seq::empty())
        },
{
}

/// The calls made for a secret or parameter name `n`, given or chosen, ask
/// for exactly `n`: the value, the description, the delete (right away when
/// forced, else once the user has said yes to deleting `n`).
pub proof fn lemma_calls_ask_for_the_name(n: Seq<char>)
    ensures
        begin(Target::GetParameter, n).1.action matches ActionView::Call(RequestView::GetParameter(m, decrypt), _)
            && m == n && decrypt,
        begin(Target::GetSecret, n).1.action matches ActionView::Call(RequestView::GetSecretValue(m), _) && m == n,
        begin(Target::DescribeSecret, n).1.action matches ActionView::Call(RequestView::DescribeSecret(m), _) && m == n,
        begin(Target::DeleteSecret { force: true }, n).1.action matches ActionView::Call(RequestView::DeleteSecret(m, _, _), _)
            && m == n,
        begin(Target::DeleteSecret { force: false }, n).1.action matches ActionView::Confirm(m, _, _) && m == n,
        begin(Target::DeleteParameter, n).1.action matches ActionView::Confirm(m, _, _) && m == n,
        next_spec(FlowView::Confirming(Target::DeleteSecret { force: false }, n), Event::Confirmed(Ok(true))).1.action
            matches ActionView::Call(RequestView::DeleteSecret(m, _, _), _) && m == n,
        next_spec(FlowView::Confirming(Target::DeleteParameter, n), Event::Confirmed(Ok(true))).1.action
            matches ActionView::Call(RequestView::DeleteParameter(m), _) && m == n,
{
}

/// `par get --name n` fetches exactly `n`, decrypted, and shows it under `n`.
pub proof fn lemma_get_parameter_by_given_name(name: String, global: GlobalOpts, value: String)
    ensures
        start_spec(Command::Parameter { command: ParCommand::Get { name: Some(name) } }, global).1.action
            matches ActionView::Call(RequestView::GetParameter(m, decrypt), _) && m == name@ && decrypt,
        start_spec(Command::Parameter { command: ParCommand::Get { name: Some(name) } }, global).0
            == FlowView::Awaiting(Target::GetParameter, name@),
        next_spec(FlowView::Awaiting(Target::GetParameter, name@), Event::ParameterValue(Ok(Some(value)))).1.output
            == seq![OutputView::Text("🔑 "@ + name@ + "\n"@ + value@)],
{
}

/// Every put of an apply, at every position `k` of the plan, stores
/// `plan[k]`'s value under `plan[k]`'s name as a `SecureString`,
/// overwriting.
pub proof fn lemma_apply_puts_are_secure_overwrites(plan: Seq<(Seq<char>, Seq<char>)>, k: int)
    requires
        0 <= k < plan.len(),
    ensures
        put_next(plan, k).1.action matches ActionView::Call(RequestView::PutParameter(a, b, overwrite, kind), _)
            && a == plan[k].0 && b == plan[k].1 && overwrite && kind == ParameterType::SecureString,
{
}

/// Applying a spec file makes, as its `j`-th step, the put of the `j`-th
/// pair of its plan as a `SecureString`, overwriting, for every `j`.
pub proof fn lemma_apply_course_puts_secure_strings(store: ParameterStore, j: int)
    requires
        0 <= j < apply_plan_spec(store.parameters.deep_view()).len(),
    ensures
        ({
            let plan = apply_plan_spec(store.parameters.deep_view());
            let steps = course(FlowView::ReadingSpec, seq![Event::SpecRead(Ok(store))] + puts_ok(plan.len())).1;
            steps[j].action matches ActionView::Call(RequestView::PutParameter(a, b, overwrite, kind), _)
                && a == plan[j].0 && b == plan[j].1 && overwrite && kind == ParameterType::SecureString
        }),
{
    let plan = apply_plan_spec(store.parameters.deep_view());
    lemma_apply_puts_in_order(store, plan.len());
    lemma_apply_puts_are_secure_overwrites(plan, j);
}

/// `par create --name n --value v` stores `v` under exactly `n` as a
/// `SecureString`, overwriting, and reports `n` created; `sec create` makes
/// the secret `n` with exactly the given text.
pub proof fn lemma_create_uses_given_name(name: String, value: String, global: GlobalOpts)
    ensures
        start_spec(Command::Parameter { command: ParCommand::Create { name, value } }, global).1.action
            matches ActionView::Call(RequestView::PutParameter(a, b, overwrite, kind), _)
            && a == name@ && b == value@ && overwrite && kind == ParameterType::SecureString,
        start_spec(Command::Parameter { command: ParCommand::Create { name, value } }, global).0
            == FlowView::CreatingParameter(name@),
        next_spec(FlowView::CreatingParameter(name@), Event::ParameterPut(Ok(()))).1.output
            == seq![OutputView::Text("✅ "@ + ("Parameter '"@ + name@ + "' created."@))],
        start_spec(Command::Secret { command: SecCommand::Create { name, secret: value } }, global).1.action
            matches ActionView::Call(RequestView::CreateSecret(a, b), _) && a == name@ && b == value@,
{
}

} // verus!

//! The course of a command: which service call, prompt or file read comes
//! next, what is shown, and how the command ends, decided from the replies.
//!
//! A command runs as a [`Flow`]: [`Flow::start`] gives the first [`Step`],
//! and [`Flow::step`] takes the reply to the last step's action and gives the
//! next one, until an [`Action::Finish`]. The caller performs the actions
//! (service calls, prompts, reading the spec file) and prints the output.

use vstd::prelude::*;
use std::path::PathBuf;
use crate::errors::{create_failure, create_failure_view, failure_view, ErrorView, ParseFileError, SecParError, ServiceError};
use crate::opt::{Command, GlobalOpts, ParCommand, SecCommand};
use crate::specs::{apply_plan, apply_plan_spec, ParameterStore};
use crate::text::{join2, join3, owned, decimal, decimal_text};
use crate::ui::{
    delete_prompt, info_text, no_items_text, select_from_list, success_text,
    value_text, Row, Selection,
};
use crate::cli::sec::{
    self, detail_lines, secret_row, text_or, SecretDetails, SecretEntry,
};
use crate::cli::par::{self, parameter_row, ParameterEntry, ParameterType};

verus! {

// ================================================================ exec types

/// A call to AWS Secrets Manager or Parameter Store.
#[derive(Debug)]
pub enum Request {
    /// starts a paginated `ListSecrets`; the reply is its first page
    ListSecrets,
    /// the next page of the `ListSecrets` in progress
    NextSecretPage,
    GetSecretValue { name: String },
    DescribeSecret { name: String },
    CreateSecret { name: String, secret: String },
    /// the recovery window in days, or deletion without recovery
    DeleteSecret { name: String, recovery_window_in_days: Option<i64>, force_delete_without_recovery: Option<bool> },
    /// starts a paginated `DescribeParameters`; the reply is its first page
    DescribeParameters,
    /// the next page of the `DescribeParameters` in progress
    NextParameterPage,
    GetParameter { name: String, with_decryption: bool },
    PutParameter { name: String, value: String, overwrite: bool, kind: ParameterType },
    DeleteParameter { name: String },
}

/// Something to show the user.
#[derive(Debug)]
pub enum Output {
    /// a line (or lines) of text
    Text(String),
    /// the announcement that the spec file at this path is being applied
    ApplyingFrom(PathBuf),
    /// a table of `(name, arn, last_changed)` rows
    SecretsTable(Vec<Row>),
    /// a table of `(name, type, last_modified)` rows
    ParametersTable(Vec<Row>),
}

/// What the caller does next.
#[derive(Debug)]
pub enum Action {
    /// make the call, with a spinner showing `spinner` while it runs; the reply
    /// is the next event
    Call { request: Request, spinner: String },
    /// present the selection menu; the chosen index is the next event
    Select(Selection),
    /// ask the yes/no question `prompt` about deleting `name`, with `default`
    /// as the answer preset; the answer is the next event
    Confirm { name: String, prompt: String, default: bool },
    /// read and deserialize the spec file; the outcome is the next event
    ReadSpec { path: PathBuf },
    /// the command is over, with this result
    Finish(Result<(), SecParError>),
}

/// The output to show, then the action to take.
#[derive(Debug)]
pub struct Step {
    pub output: Vec<Output>,
    pub action: Action,
}

/// The reply to the last action.
#[derive(Debug)]
pub enum Event {
    /// reply to `ListSecrets` / `NextSecretPage`: a page, or `None` when
    /// there are no more pages
    SecretPage(Result<Option<Vec<SecretEntry>>, ServiceError>),
    /// reply to `DescribeParameters` / `NextParameterPage`: a page, or `None`
    /// when there are no more pages
    ParameterPage(Result<Option<Vec<ParameterEntry>>, ServiceError>),
    /// the index chosen in a selection menu
    Selected(Result<usize, String>),
    /// the answer to a delete confirmation
    Confirmed(Result<bool, String>),
    /// reply to `GetSecretValue`: the secret's text, if it has one
    SecretValue(Result<Option<String>, ServiceError>),
    /// reply to `DescribeSecret`
    SecretDescribed(Result<SecretDetails, ServiceError>),
    /// reply to `CreateSecret`: the new secret's ARN, if given
    SecretCreated(Result<Option<String>, ServiceError>),
    /// reply to `DeleteSecret`
    SecretDeleted(Result<(), ServiceError>),
    /// reply to `GetParameter`: the parameter's value, if it has one
    ParameterValue(Result<Option<String>, ServiceError>),
    /// reply to `PutParameter`
    ParameterPut(Result<(), ServiceError>),
    /// reply to `DeleteParameter`
    ParameterDeleted(Result<(), ServiceError>),
    /// outcome of reading the spec file
    SpecRead(Result<ParameterStore, ParseFileError>),
}

/// An operation on one secret or parameter, whose name is given or selected.
#[derive(Debug, Clone, Copy, PartialEq, Eq, Structural)]
pub enum Target {
    GetSecret,
    DescribeSecret,
    DeleteSecret { force: bool },
    GetParameter,
    DeleteParameter,
}

/// Where a command stands.
#[derive(Debug)]
pub enum Flow {
    /// `sec list`: the rows of the pages so far; waiting for the next page
    ListingSecrets { rows: Vec<Row> },
    /// `par list`: the rows of the pages so far; waiting for the next page
    ListingParameters { rows: Vec<Row> },
    /// no name given: the names of the pages so far; waiting for the next page
    GatheringSecretNames { target: Target, names: Vec<String> },
    /// no name given: the names of the pages so far; waiting for the next page
    GatheringParameterNames { target: Target, names: Vec<String> },
    /// waiting for the choice among `items`
    Choosing { target: Target, items: Vec<String> },
    /// waiting for the answer to deleting `name`
    Confirming { target: Target, name: String },
    /// waiting for the reply to the target's call on `name`
    Awaiting { target: Target, name: String },
    /// waiting for the reply to creating the secret `name`
    CreatingSecret { name: String },
    /// waiting for the reply to creating the parameter `name`
    CreatingParameter { name: String },
    /// waiting for the spec file
    ReadingSpec,
    /// applying `plan`: waiting for the reply to putting `plan[next]`
    Applying { plan: Vec<(String, String)>, next: usize },
    /// over
    Finished,
}

// ================================================================ views

/// A listing row as text.
pub type RowView = (Seq<char>, Seq<char>, Seq<char>);

/// A call, as text and flags.
pub enum RequestView {
    ListSecrets,
    NextSecretPage,
    GetSecretValue(Seq<char>),
    DescribeSecret(Seq<char>),
    CreateSecret(Seq<char>, Seq<char>),
    DeleteSecret(Seq<char>, Option<i64>, Option<bool>),
    DescribeParameters,
    NextParameterPage,
    GetParameter(Seq<char>, bool),
    PutParameter(Seq<char>, Seq<char>, bool, ParameterType),
    DeleteParameter(Seq<char>),
}

/// An output, as text.
pub enum OutputView {
    Text(Seq<char>),
    ApplyingFrom(PathBuf),
    SecretsTable(Seq<RowView>),
    ParametersTable(Seq<RowView>),
}


/// An action, as text and flags: a call and its spinner text; a menu's prompt,
/// items and preset index; a confirmation's name, question and preset answer.
pub enum ActionView {
    Call(RequestView, Seq<char>),
    Select(Seq<char>, Seq<Seq<char>>, usize),
    Confirm(Seq<char>, Seq<char>, bool),
    ReadSpec(PathBuf),
    Finish(Result<(), ErrorView>),
}

/// A step: what is shown, then what is done.
pub struct StepView {
    pub output: Seq<OutputView>,
    pub action: ActionView,
}

/// Where a command stands, its names and rows as text.
pub enum FlowView {
    ListingSecrets(Seq<RowView>),
    ListingParameters(Seq<RowView>),
    GatheringSecretNames(Target, Seq<Seq<char>>),
    GatheringParameterNames(Target, Seq<Seq<char>>),
    Choosing(Target, Seq<Seq<char>>),
    Confirming(Target, Seq<char>),
    Awaiting(Target, Seq<char>),
    CreatingSecret(Seq<char>),
    CreatingParameter(Seq<char>),
    ReadingSpec,
    Applying(Seq<(Seq<char>, Seq<char>)>, int),
    Finished,
}

impl View for Request {
    type V = RequestView;

    open spec fn view(&self) -> RequestView {
        match self {
            Request::ListSecrets => RequestView::ListSecrets,
            Request::NextSecretPage => RequestView::NextSecretPage,
            Request::GetSecretValue { name } => RequestView::GetSecretValue(name@),
            Request::DescribeSecret { name } => RequestView::DescribeSecret(name@),
            Request::CreateSecret { name, secret } => RequestView::CreateSecret(name@, secret@),
            Request::DeleteSecret { name, recovery_window_in_days, force_delete_without_recovery } =>
                RequestView::DeleteSecret(name@, *recovery_window_in_days, *force_delete_without_recovery),
            Request::DescribeParameters => RequestView::DescribeParameters,
            Request::NextParameterPage => RequestView::NextParameterPage,
            Request::GetParameter { name, with_decryption } => RequestView::GetParameter(name@, *with_decryption),
            Request::PutParameter { name, value, overwrite, kind } => RequestView::PutParameter(name@, value@, *overwrite, *kind),
            Request::DeleteParameter { name } => RequestView::DeleteParameter(name@),
        }
    }
}

impl View for Output {
    type V = OutputView;

    open spec fn view(&self) -> OutputView {
        match self {
            Output::Text(s) => OutputView::Text(s@),
            Output::ApplyingFrom(p) => OutputView::ApplyingFrom(*p),
            Output::SecretsTable(rows) => OutputView::SecretsTable(rows.deep_view()),
            Output::ParametersTable(rows) => OutputView::ParametersTable(rows.deep_view()),
        }
    }
}


impl View for Action {
    type V = ActionView;

    open spec fn view(&self) -> ActionView {
        match self {
            Action::Call { request, spinner } => ActionView::Call(request@, spinner@),
            Action::Select(sel) => ActionView::Select(sel.prompt@, sel.items.deep_view(), sel.default),
            Action::Confirm { name, prompt, default } => ActionView::Confirm(name@, prompt@, *default),
            Action::ReadSpec { path } => ActionView::ReadSpec(*path),
            Action::Finish(Ok(())) => ActionView::Finish(Ok(())),
            Action::Finish(Err(e)) => ActionView::Finish(Err(e@)),
        }
    }
}

impl View for Step {
    type V = StepView;

    open spec fn view(&self) -> StepView {
        StepView { output: output_views(self.output@), action: self.action@ }
    }
}

impl View for Flow {
    type V = FlowView;

    open spec fn view(&self) -> FlowView {
        match self {
            Flow::ListingSecrets { rows } => FlowView::ListingSecrets(rows.deep_view()),
            Flow::ListingParameters { rows } => FlowView::ListingParameters(rows.deep_view()),
            Flow::GatheringSecretNames { target, names } => FlowView::GatheringSecretNames(*target, names.deep_view()),
            Flow::GatheringParameterNames { target, names } => FlowView::GatheringParameterNames(*target, names.deep_view()),
            Flow::Choosing { target, items } => FlowView::Choosing(*target, items.deep_view()),
            Flow::Confirming { target, name } => FlowView::Confirming(*target, name@),
            Flow::Awaiting { target, name } => FlowView::Awaiting(*target, name@),
            Flow::CreatingSecret { name } => FlowView::CreatingSecret(name@),
            Flow::CreatingParameter { name } => FlowView::CreatingParameter(name@),
            Flow::ReadingSpec => FlowView::ReadingSpec,
            Flow::Applying { plan, next } => FlowView::Applying(plan.deep_view(), *next as int),
            Flow::Finished => FlowView::Finished,
        }
    }
}

// ================================================================ the course, stated

/// The views of a sequence of outputs.
pub open spec fn output_views(outputs: Seq<Output>) -> Seq<OutputView> {
    outputs.map_values(|o: Output| o@)
}

/// The recovery window, in days, of a secret deleted without `--force`.
pub const RECOVERY_WINDOW_DAYS: i64 = 7;

/// A step that shows nothing and makes a call.
pub open spec fn call(request: RequestView, spinner: Seq<char>) -> StepView {
    StepView { output: seq![], action: ActionView::Call(request, spinner) }
}

/// The command is over with `error`, having shown nothing.
pub open spec fn fail(error: ErrorView) -> (FlowView, StepView) {
    (FlowView::Finished, StepView { output: seq![], action: ActionView::Finish(Err(error)) })
}

/// The command is over and succeeded, showing `output`.
pub open spec fn done(output: Seq<OutputView>) -> (FlowView, StepView) {
    (FlowView::Finished, StepView { output, action: ActionView::Finish(Ok(())) })
}

/// `<before>'<name>'<after>`.
pub open spec fn quoted(before: Seq<char>, name: Seq<char>, after: Seq<char>) -> Seq<char> {
    before + "'"@ + name + "'"@ + after
}

/// A success notice, as text output.
pub open spec fn success_out(msg: Seq<char>) -> OutputView {
    OutputView::Text("✅ "@ + msg)
}

/// An informational notice, as text output.
pub open spec fn info_out(msg: Seq<char>) -> OutputView {
    OutputView::Text("ℹ️  "@ + msg)
}

/// Once the target's name is known: the call it makes, or, for a delete that
/// is not forced, the confirmation asked first.
pub open spec fn begin(target: Target, name: Seq<char>) -> (FlowView, StepView) {
    match target {
        Target::GetSecret => (FlowView::Awaiting(target, name),
            call(RequestView::GetSecretValue(name), quoted("Retrieving "@, name, "…"@))),
        Target::DescribeSecret => (FlowView::Awaiting(target, name),
            call(RequestView::DescribeSecret(name), quoted("Describing "@, name, "…"@))),
        Target::DeleteSecret { force } => if force {
            (FlowView::Awaiting(target, name),
                call(RequestView::DeleteSecret(name, None, Some(true)), quoted("Deleting "@, name, "…"@)))
        } else {
            (FlowView::Confirming(target, name),
                StepView { output: seq![], action: ActionView::Confirm(name, quoted("Delete "@, name, "?"@), false) })
        },
        Target::GetParameter => (FlowView::Awaiting(target, name),
            call(RequestView::GetParameter(name, true), quoted("Retrieving "@, name, "…"@))),
        Target::DeleteParameter => (FlowView::Confirming(target, name),
            StepView { output: seq![], action: ActionView::Confirm(name, quoted("Delete "@, name, "?"@), false) }),
    }
}

/// The delete call made once the user confirmed deleting `name`.
pub open spec fn confirmed(target: Target, name: Seq<char>) -> (FlowView, StepView) {
    match target {
        Target::DeleteParameter => (FlowView::Awaiting(target, name),
            call(RequestView::DeleteParameter(name), quoted("Deleting "@, name, "…"@))),
        _ => (FlowView::Awaiting(target, name),
            call(RequestView::DeleteSecret(name, Some(RECOVERY_WINDOW_DAYS), None), quoted("Deleting "@, name, "…"@))),
    }
}

/// The selection menu over `items`, or the error for an empty one.
pub open spec fn choose_among(prompt: Seq<char>, items: Seq<Seq<char>>, target: Target) -> (FlowView, StepView) {
    if items.len() == 0 {
        fail(ErrorView::Interactive(no_items_text()))
    } else {
        (FlowView::Choosing(target, items), StepView { output: seq![], action: ActionView::Select(prompt, items, 0) })
    }
}

/// The end of a listing: `empty_text` when there is nothing, else the table
/// and the count.
pub open spec fn listed(table: OutputView, count: nat, noun: Seq<char>, empty_text: Seq<char>) -> (FlowView, StepView) {
    if count == 0 {
        done(seq![OutputView::Text(empty_text)])
    } else {
        done(seq![table, info_out(decimal(count) + " "@ + noun + "(s) found."@)])
    }
}

/// The put of `plan[k]`, or the end of the apply when the plan is through.
pub open spec fn put_next(plan: Seq<(Seq<char>, Seq<char>)>, k: int) -> (FlowView, StepView) {
    if 0 <= k < plan.len() {
        (FlowView::Applying(plan, k), call(put_request(plan[k]), "Applying parameters from spec…"@))
    } else {
        done(seq![success_out("Parameters applied successfully."@)])
    }
}

/// The call that stores a `(name, value)` pair as a `SecureString`,
/// overwriting any parameter of that name.
pub open spec fn put_request(pair: (Seq<char>, Seq<char>)) -> RequestView {
    RequestView::PutParameter(pair.0, pair.1, true, ParameterType::SecureString)
}

/// The lines that show the active environment.
pub open spec fn env_lines(global: GlobalOpts) -> Seq<OutputView> {
    seq![
        info_out("Active AWS environment"@),
        OutputView::Text("  Region        : "@ + global.region@),
        OutputView::Text("  Profile       : "@ + text_or(global.profile, "-"@)),
    ]
}

/// The first step of a command.
pub open spec fn start_spec(command: Command, global: GlobalOpts) -> (FlowView, StepView) {
    match command {
        Command::Secret { command } => match command {
            SecCommand::List {} => (FlowView::ListingSecrets(seq![]), call(RequestView::ListSecrets, "Listing secrets…"@)),
            SecCommand::Get { name } => named(Target::GetSecret, name),
            SecCommand::Describe { name } => named(Target::DescribeSecret, name),
            SecCommand::Create { name, secret } => (FlowView::CreatingSecret(name@),
                call(RequestView::CreateSecret(name@, secret@), quoted("Creating secret "@, name@, "…"@))),
            SecCommand::Delete { name, force } => named(Target::DeleteSecret { force }, name),
        },
        Command::Parameter { command } => match command {
            ParCommand::List {} => (FlowView::ListingParameters(seq![]), call(RequestView::DescribeParameters, "Listing parameters…"@)),
            ParCommand::Get { name } => named(Target::GetParameter, name),
            ParCommand::Create { name, value } => (FlowView::CreatingParameter(name@),
                call(RequestView::PutParameter(name@, value@, true, ParameterType::SecureString), quoted("Creating parameter "@, name@, "…"@))),
            ParCommand::Delete { name } => named(Target::DeleteParameter, name),
            ParCommand::Apply { path } => (FlowView::ReadingSpec,
                StepView { output: seq![OutputView::ApplyingFrom(path)], action: ActionView::ReadSpec(path) }),
        },
        Command::Env => done(env_lines(global)),
    }
}

/// Whether the target works on a secret (else on a parameter).
pub open spec fn on_secret(target: Target) -> bool {
    target is GetSecret || target is DescribeSecret || target is DeleteSecret
}

/// A target with a name given goes straight to it; without one, the names
/// are listed first, to choose from.
pub open spec fn named(target: Target, name: Option<String>) -> (FlowView, StepView) {
    match name {
        Some(n) => begin(target, n@),
        None => if on_secret(target) {
            (FlowView::GatheringSecretNames(target, seq![]), call(RequestView::ListSecrets, "Fetching secrets for selection…"@))
        } else {
            (FlowView::GatheringParameterNames(target, seq![]), call(RequestView::DescribeParameters, "Fetching parameters for selection…"@))
        },
    }
}

/// The rows of a page of secrets.
pub open spec fn secret_rows_of(entries: Vec<SecretEntry>) -> Seq<RowView> {
    entries@.map_values(|e: SecretEntry| secret_row(e))
}

/// The rows of a page of parameters.
pub open spec fn parameter_rows_of(entries: Vec<ParameterEntry>) -> Seq<RowView> {
    entries@.map_values(|e: ParameterEntry| parameter_row(e))
}

/// The names in a list of rows.
pub open spec fn names_of(rows: Seq<RowView>) -> Seq<Seq<char>> {
    rows.map_values(|r: RowView| r.0)
}

/// Whether a flow in state `f` takes `event` as the reply to its last action.
pub open spec fn accepts(f: FlowView, event: Event) -> bool {
    match (f, event) {
        (FlowView::ListingSecrets(_), Event::SecretPage(_)) => true,
        (FlowView::ListingParameters(_), Event::ParameterPage(_)) => true,
        (FlowView::GatheringSecretNames(_, _), Event::SecretPage(_)) => true,
        (FlowView::GatheringParameterNames(_, _), Event::ParameterPage(_)) => true,
        (FlowView::Choosing(_, items), Event::Selected(r)) => r matches Ok(i) ==> i < items.len(),
        (FlowView::Confirming(_, _), Event::Confirmed(_)) => true,
        (FlowView::Awaiting(Target::GetSecret, _), Event::SecretValue(_)) => true,
        (FlowView::Awaiting(Target::DescribeSecret, _), Event::SecretDescribed(_)) => true,
        (FlowView::Awaiting(Target::DeleteSecret { .. }, _), Event::SecretDeleted(_)) => true,
        (FlowView::Awaiting(Target::GetParameter, _), Event::ParameterValue(_)) => true,
        (FlowView::Awaiting(Target::DeleteParameter, _), Event::ParameterDeleted(_)) => true,
        (FlowView::CreatingSecret(_), Event::SecretCreated(_)) => true,
        (FlowView::CreatingParameter(_), Event::ParameterPut(_)) => true,
        (FlowView::ReadingSpec, Event::SpecRead(_)) => true,
        (FlowView::Applying(_, _), Event::ParameterPut(_)) => true,
        _ => false,
    }
}

/// Where a flow in state `f` goes on `event`, and what it does there.
pub open spec fn next_spec(f: FlowView, event: Event) -> (FlowView, StepView) {
    match (f, event) {
        (FlowView::ListingSecrets(rows), Event::SecretPage(Ok(Some(page)))) =>
            (FlowView::ListingSecrets(rows + secret_rows_of(page)), call(RequestView::NextSecretPage, "Listing secrets…"@)),
        (FlowView::ListingSecrets(rows), Event::SecretPage(Ok(None))) =>
            listed(OutputView::SecretsTable(rows), rows.len(), "secret"@, "No secrets found."@),
        (FlowView::ListingParameters(rows), Event::ParameterPage(Ok(Some(page)))) =>
            (FlowView::ListingParameters(rows + parameter_rows_of(page)), call(RequestView::NextParameterPage, "Listing parameters…"@)),
        (FlowView::ListingParameters(rows), Event::ParameterPage(Ok(None))) =>
            listed(OutputView::ParametersTable(rows), rows.len(), "parameter"@, "No parameters found."@),
        (FlowView::GatheringSecretNames(target, names), Event::SecretPage(Ok(Some(page)))) =>
            (FlowView::GatheringSecretNames(target, names + names_of(secret_rows_of(page))),
                call(RequestView::NextSecretPage, "Fetching secrets for selection…"@)),
        (FlowView::GatheringSecretNames(target, names), Event::SecretPage(Ok(None))) =>
            choose_among("Select a secret"@, names, target),
        (FlowView::GatheringParameterNames(target, names), Event::ParameterPage(Ok(Some(page)))) =>
            (FlowView::GatheringParameterNames(target, names + names_of(parameter_rows_of(page))),
                call(RequestView::NextParameterPage, "Fetching parameters for selection…"@)),
        (FlowView::GatheringParameterNames(target, names), Event::ParameterPage(Ok(None))) =>
            choose_among("Select a parameter"@, names, target),
        (_, Event::SecretPage(Err(e))) => fail(failure_view(e)),
        (_, Event::ParameterPage(Err(e))) => fail(failure_view(e)),
        (FlowView::Choosing(target, items), Event::Selected(Ok(i))) => begin(target, items[i as int]),
        (_, Event::Selected(Err(e))) => fail(ErrorView::Interactive(e@)),
        (FlowView::Confirming(target, name), Event::Confirmed(Ok(yes))) =>
            if yes { confirmed(target, name) } else { done(seq![OutputView::Text("Aborted."@)]) },
        (_, Event::Confirmed(Err(e))) => fail(ErrorView::Interactive(e@)),
        (FlowView::Awaiting(_, name), Event::SecretValue(Ok(Some(v)))) =>
            done(seq![OutputView::Text("🔑 "@ + name + "\n"@ + v@)]),
        (FlowView::Awaiting(_, name), Event::SecretValue(Ok(None))) =>
            fail(ErrorView::MissingValue("secret value is empty for "@ + name)),
        (FlowView::Awaiting(_, _), Event::SecretDescribed(Ok(d))) =>
            done(detail_lines(d).map_values(|l: Seq<char>| OutputView::Text(l))),
        (FlowView::Awaiting(target, name), Event::SecretDeleted(Ok(()))) =>
            done(seq![success_out("Secret '"@ + name + (if target == (Target::DeleteSecret { force: true }) { "' deleted (force)."@ } else { "' deleted."@ }))]),
        (FlowView::Awaiting(_, name), Event::ParameterValue(Ok(Some(v)))) =>
            done(seq![OutputView::Text("🔑 "@ + name + "\n"@ + v@)]),
        (FlowView::Awaiting(_, name), Event::ParameterValue(Ok(None))) =>
            fail(ErrorView::MissingValue("parameter value is empty for "@ + name)),
        (FlowView::Awaiting(_, name), Event::ParameterDeleted(Ok(()))) =>
            done(seq![success_out("Parameter '"@ + name + "' deleted."@)]),
        (FlowView::CreatingSecret(name), Event::SecretCreated(Ok(Some(arn)))) =>
            done(seq![success_out("Secret '"@ + name + "' created."@), info_out("ARN: "@ + arn@)]),
        (FlowView::CreatingSecret(name), Event::SecretCreated(Ok(None))) =>
            fail(ErrorView::MissingValue("secret ARN is missing for "@ + name)),
        (FlowView::CreatingParameter(name), Event::ParameterPut(Ok(()))) =>
            done(seq![success_out("Parameter '"@ + name + "' created."@)]),
        (FlowView::ReadingSpec, Event::SpecRead(Ok(store))) =>
            put_next(apply_plan_spec(store.parameters.deep_view()), 0),
        (FlowView::ReadingSpec, Event::SpecRead(Err(e))) => fail(ErrorView::InvalidSpec(e)),
        (FlowView::Applying(plan, k), Event::ParameterPut(Ok(()))) => put_next(plan, k + 1),
        (_, Event::SecretValue(Err(e))) => fail(failure_view(e)),
        (_, Event::SecretDescribed(Err(e))) => fail(failure_view(e)),
        (_, Event::SecretCreated(Err(e))) => fail(create_failure_view(e)),
        (_, Event::SecretDeleted(Err(e))) => fail(failure_view(e)),
        (_, Event::ParameterValue(Err(e))) => fail(failure_view(e)),
        (_, Event::ParameterPut(Err(e))) => fail(create_failure_view(e)),
        (_, Event::ParameterDeleted(Err(e))) => fail(failure_view(e)),
        _ => (FlowView::Finished, StepView { output: seq![], action: ActionView::Finish(Ok(())) }),
    }
}

/// The states a flow can be in: a choice is among at least one item, and an
/// apply waits on a pair of its plan.
pub open spec fn wf(f: FlowView) -> bool {
    match f {
        FlowView::Choosing(_, items) => items.len() > 0,
        FlowView::Applying(plan, k) => 0 <= k < plan.len(),
        _ => true,
    }
}

// ================================================================ the course, computed

/// `<before>'<name>'<after>`.
fn quoted_text(before: &str, name: &str, after: &str) -> (r: String)
    ensures
        r@ == quoted(before@, name@, after@),
{
    let mut r = join3(before, "'", name);
    r.append("'");
    r.append(after);
    r
}

/// A step that shows nothing and makes a call.
fn call_step(request: Request, spinner: String) -> (s: Step)
    ensures
        s@ == call(request@, spinner@),
{
    let s = Step { output: Vec::new(), action: Action::Call { request, spinner } };
    assert(s@.output =~= Seq::<OutputView>::empty());
    s
}

/// Output of one item.
fn one(a: Output) -> (v: Vec<Output>)
    ensures
        output_views(v@) == seq![a@],
{
    let mut v = Vec::new();
    v.push(a);
    assert(output_views(v@) =~= seq![a@]);
    v
}

/// Output of two items.
fn two(a: Output, b: Output) -> (v: Vec<Output>)
    ensures
        output_views(v@) == seq![a@, b@],
{
    let mut v = Vec::new();
    v.push(a);
    v.push(b);
    assert(output_views(v@) =~= seq![a@, b@]);
    v
}

/// The command is over with `error`, having shown nothing.
fn fail_exec(error: SecParError) -> (r: (Flow, Step))
    ensures
        (r.0@, r.1@) == fail(error@),
{
    let s = Step { output: Vec::new(), action: Action::Finish(Err(error)) };
    assert(s@.output =~= Seq::<OutputView>::empty());
    (Flow::Finished, s)
}

/// The command is over and succeeded, showing `output`.
fn done_exec(output: Vec<Output>) -> (r: (Flow, Step))
    ensures
        (r.0@, r.1@) == done(output_views(output@)),
{
    (Flow::Finished, Step { output, action: Action::Finish(Ok(())) })
}

/// A success notice.
fn success_output(msg: &str) -> (o: Output)
    ensures
        o@ == success_out(msg@),
{
    Output::Text(success_text(msg))
}

/// An informational notice.
fn info_output(msg: &str) -> (o: Output)
    ensures
        o@ == info_out(msg@),
{
    Output::Text(info_text(msg))
}

/// Once the target's name is known: its call, or the confirmation first.
fn begin_exec(target: Target, name: String) -> (r: (Flow, Step))
    ensures
        (r.0@, r.1@) == begin(target, name@),
{
    match target {
        Target::GetSecret => {
            let spinner = quoted_text("Retrieving ", name.as_str(), "…");
            let request = Request::GetSecretValue { name: name.clone() };
            (Flow::Awaiting { target, name }, call_step(request, spinner))
        },
        Target::DescribeSecret => {
            let spinner = quoted_text("Describing ", name.as_str(), "…");
            let request = Request::DescribeSecret { name: name.clone() };
            (Flow::Awaiting { target, name }, call_step(request, spinner))
        },
        Target::DeleteSecret { force } => {
            if force {
                let spinner = quoted_text("Deleting ", name.as_str(), "…");
                let request = Request::DeleteSecret {
                    name: name.clone(),
                    recovery_window_in_days: None,
                    force_delete_without_recovery: Some(true),
                };
                (Flow::Awaiting { target, name }, call_step(request, spinner))
            } else {
                confirm_exec(target, name)
            }
        },
        Target::GetParameter => {
            let spinner = quoted_text("Retrieving ", name.as_str(), "…");
            let request = Request::GetParameter { name: name.clone(), with_decryption: true };
            (Flow::Awaiting { target, name }, call_step(request, spinner))
        },
        Target::DeleteParameter => confirm_exec(target, name),
    }
}

/// The confirmation asked before deleting `name`.
fn confirm_exec(target: Target, name: String) -> (r: (Flow, Step))
    ensures
        r.0@ == FlowView::Confirming(target, name@),
        r.1@ == (StepView { output: seq![], action: ActionView::Confirm(name@, quoted("Delete "@, name@, "?"@), false) }),
{
    let prompt = delete_prompt(name.as_str());
    proof {
        assert(quoted("Delete "@, name@, "?"@) =~= "Delete '"@ + name@ + "'?"@) by {
            reveal_strlit("Delete '");
            reveal_strlit("Delete ");
            reveal_strlit("'");
            reveal_strlit("'?");
            reveal_strlit("?");
        }
    }
    let s = Step { output: Vec::new(), action: Action::Confirm { name: name.clone(), prompt, default: false } };
    assert(s@.output =~= Seq::<OutputView>::empty());
    (Flow::Confirming { target, name }, s)
}

/// The delete call made once the user confirmed deleting `name`.
fn confirmed_exec(target: Target, name: String) -> (r: (Flow, Step))
    ensures
        (r.0@, r.1@) == confirmed(target, name@),
{
    let spinner = quoted_text("Deleting ", name.as_str(), "…");
    match target {
        Target::DeleteParameter => {
            let request = Request::DeleteParameter { name: name.clone() };
            (Flow::Awaiting { target, name }, call_step(request, spinner))
        },
        _ => {
            let request = Request::DeleteSecret {
                name: name.clone(),
                recovery_window_in_days: Some(RECOVERY_WINDOW_DAYS),
                force_delete_without_recovery: None,
            };
            (Flow::Awaiting { target, name }, call_step(request, spinner))
        },
    }
}

/// The selection menu over `items`, or the error for an empty one.
fn choose_exec(prompt: &str, items: Vec<String>, target: Target) -> (r: (Flow, Step))
    ensures
        (r.0@, r.1@) == choose_among(prompt@, items.deep_view(), target),
{
    let kept = copy_names(&items);
    match select_from_list(prompt, items) {
        Err(e) => fail_exec(e),
        Ok(sel) => {
            let s = Step { output: Vec::new(), action: Action::Select(sel) };
            assert(s@.output =~= Seq::<OutputView>::empty());
            (Flow::Choosing { target, items: kept }, s)
        },
    }
}

/// A copy of a list of names.
fn copy_names(names: &Vec<String>) -> (r: Vec<String>)
    ensures
        r.deep_view() == names.deep_view(),
{
    let mut r: Vec<String> = Vec::new();
    let n = names.len();
    for i in 0..n
        invariant
            n == names.len(),
            r.deep_view() == names.deep_view().take(i as int),
    {
        let ghost prev = r.deep_view();
        r.push(names[i].clone());
        assert(r.deep_view() =~= prev.push(names.deep_view()[i as int]));
        assert(r.deep_view() =~= names.deep_view().take(i + 1));
    }
    assert(names.deep_view().take(n as int) =~= names.deep_view());
    r
}

/// The names in a list of rows.
fn names_from(rows: &Vec<Row>) -> (r: Vec<String>)
    ensures
        r.deep_view() == names_of(rows.deep_view()),
{
    let mut r: Vec<String> = Vec::new();
    let n = rows.len();
    for i in 0..n
        invariant
            n == rows.len(),
            r.deep_view() == names_of(rows.deep_view().take(i as int)),
    {
        let ghost prev = r.deep_view();
        r.push(rows[i].0.clone());
        assert(r.deep_view() =~= prev.push(rows.deep_view()[i as int].0));
        assert(r.deep_view() =~= names_of(rows.deep_view().take(i + 1)));
    }
    assert(rows.deep_view().take(n as int) =~= rows.deep_view());
    r
}

/// `a` followed by `b`.
fn extend_rows(a: Vec<Row>, b: Vec<Row>) -> (r: Vec<Row>)
    ensures
        r.deep_view() == a.deep_view() + b.deep_view(),
{
    let mut r = a;
    let mut b = b;
    let ghost a0 = r.deep_view();
    let ghost b0 = b.deep_view();
    r.append(&mut b);
    assert(r.deep_view() =~= a0 + b0);
    r
}

/// `a` followed by `b`.
fn extend_names(a: Vec<String>, b: Vec<String>) -> (r: Vec<String>)
    ensures
        r.deep_view() == a.deep_view() + b.deep_view(),
{
    let mut r = a;
    let mut b = b;
    let ghost a0 = r.deep_view();
    let ghost b0 = b.deep_view();
    r.append(&mut b);
    assert(r.deep_view() =~= a0 + b0);
    r
}

/// The end of a listing: `empty_text` when there is nothing, else the table
/// and the count.
fn listed_exec(table: Output, count: usize, noun: &str, empty_text: &str) -> (r: (Flow, Step))
    ensures
        (r.0@, r.1@) == listed(table@, count as nat, noun@, empty_text@),
{
    if count == 0 {
        done_exec(one(Output::Text(owned(empty_text))))
    } else {
        let mut msg = decimal_text(count);
        msg.append(" ");
        msg.append(noun);
        msg.append("(s) found.");
        let info = info_output(msg.as_str());
        done_exec(two(table, info))
    }
}

/// The put of `plan[k]`, or the end of the apply when the plan is through.
fn put_next_exec(plan: Vec<(String, String)>, k: usize) -> (r: (Flow, Step))
    ensures
        (r.0@, r.1@) == put_next(plan.deep_view(), k as int),
{
    if k < plan.len() {
        let name = plan[k].0.clone();
        let value = plan[k].1.clone();
        let request = Request::PutParameter { name, value, overwrite: true, kind: ParameterType::SecureString };
        let spinner = owned("Applying parameters from spec…");
        (Flow::Applying { plan, next: k }, call_step(request, spinner))
    } else {
        done_exec(one(success_output("Parameters applied successfully.")))
    }
}

/// A target with a name given goes straight to it; without one, the names
/// are listed first.
fn named_exec(target: Target, name: Option<String>) -> (r: (Flow, Step))
    ensures
        (r.0@, r.1@) == named(target, name),
{
    match name {
        Some(n) => begin_exec(target, n),
        None => {
            match target {
                Target::GetSecret | Target::DescribeSecret | Target::DeleteSecret { .. } => {
                    let names: Vec<String> = Vec::new();
                    assert(names.deep_view() =~= Seq::<Seq<char>>::empty());
                    (Flow::GatheringSecretNames { target, names },
                        call_step(Request::ListSecrets, owned("Fetching secrets for selection…")))
                },
                _ => {
                    let names: Vec<String> = Vec::new();
                    assert(names.deep_view() =~= Seq::<Seq<char>>::empty());
                    let f = Flow::GatheringParameterNames { target, names };
                    assert(f@ == FlowView::GatheringParameterNames(target, seq![]));
                    (f, call_step(Request::DescribeParameters, owned("Fetching parameters for selection…")))
                },
            }
        },
    }
}

/// The lines that show the active environment.
fn env_exec(global: &GlobalOpts) -> (v: Vec<Output>)
    ensures
        output_views(v@) == env_lines(*global),
{
    let mut v: Vec<Output> = Vec::new();
    v.push(info_output("Active AWS environment"));
    v.push(Output::Text(join2("  Region        : ", global.region.as_str())));
    v.push(Output::Text(join2("  Profile       : ", sec::field_or(&global.profile, "-").as_str())));
    assert(output_views(v@) =~= env_lines(*global));
    v
}

/// `std::path::PathBuf::clone`: claims that the copy is the same path value,
/// so that the path announced and the path read are one.
#[verifier::external_body]
fn clone_path(path: &PathBuf) -> (r: PathBuf)
    ensures
        r == *path,
{
    path.clone()
}

impl Flow {
    /// The state and first step of a command.
    pub fn start(command: Command, global: &GlobalOpts) -> (r: (Flow, Step))
        ensures
            (r.0@, r.1@) == start_spec(command, *global),
            wf(r.0@),
    {
        match command {
            Command::Secret { command } => match command {
                SecCommand::List {} => {
                    let rows: Vec<Row> = Vec::new();
                    assert(rows.deep_view() =~= Seq::<RowView>::empty());
                    (Flow::ListingSecrets { rows }, call_step(Request::ListSecrets, owned("Listing secrets…")))
                },
                SecCommand::Get { name } => named_exec(Target::GetSecret, name),
                SecCommand::Describe { name } => named_exec(Target::DescribeSecret, name),
                SecCommand::Create { name, secret } => {
                    let spinner = quoted_text("Creating secret ", name.as_str(), "…");
                    let request = Request::CreateSecret { name: name.clone(), secret };
                    (Flow::CreatingSecret { name }, call_step(request, spinner))
                },
                SecCommand::Delete { name, force } => named_exec(Target::DeleteSecret { force }, name),
            },
            Command::Parameter { command } => match command {
                ParCommand::List {} => {
                    let rows: Vec<Row> = Vec::new();
                    assert(rows.deep_view() =~= Seq::<RowView>::empty());
                    let f = Flow::ListingParameters { rows };
                    assert(f@ == FlowView::ListingParameters(seq![]));
                    (f, call_step(Request::DescribeParameters, owned("Listing parameters…")))
                },
                ParCommand::Get { name } => named_exec(Target::GetParameter, name),
                ParCommand::Create { name, value } => {
                    let spinner = quoted_text("Creating parameter ", name.as_str(), "…");
                    let request = Request::PutParameter { name: name.clone(), value, overwrite: true, kind: ParameterType::SecureString };
                    (Flow::CreatingParameter { name }, call_step(request, spinner))
                },
                ParCommand::Delete { name } => named_exec(Target::DeleteParameter, name),
                ParCommand::Apply { path } => {
                    let read = clone_path(&path);
                    let s = Step { output: one(Output::ApplyingFrom(path)), action: Action::ReadSpec { path: read } };
                    (Flow::ReadingSpec, s)
                },
            },
            Command::Env => done_exec(env_exec(global)),
        }
    }

    /// Whether the flow takes `event` as the reply to its last action.
    pub fn accepts(&self, event: &Event) -> (b: bool)
        ensures
            b == accepts(self@, *event),
    {
        match (self, event) {
            (Flow::ListingSecrets { .. }, Event::SecretPage(_)) => true,
            (Flow::ListingParameters { .. }, Event::ParameterPage(_)) => true,
            (Flow::GatheringSecretNames { .. }, Event::SecretPage(_)) => true,
            (Flow::GatheringParameterNames { .. }, Event::ParameterPage(_)) => true,
            (Flow::Choosing { items, .. }, Event::Selected(r)) => match r {
                Ok(i) => *i < items.len(),
                Err(_) => true,
            },
            (Flow::Confirming { .. }, Event::Confirmed(_)) => true,
            (Flow::Awaiting { target: Target::GetSecret, .. }, Event::SecretValue(_)) => true,
            (Flow::Awaiting { target: Target::DescribeSecret, .. }, Event::SecretDescribed(_)) => true,
            (Flow::Awaiting { target: Target::DeleteSecret { .. }, .. }, Event::SecretDeleted(_)) => true,
            (Flow::Awaiting { target: Target::GetParameter, .. }, Event::ParameterValue(_)) => true,
            (Flow::Awaiting { target: Target::DeleteParameter, .. }, Event::ParameterDeleted(_)) => true,
            (Flow::CreatingSecret { .. }, Event::SecretCreated(_)) => true,
            (Flow::CreatingParameter { .. }, Event::ParameterPut(_)) => true,
            (Flow::ReadingSpec, Event::SpecRead(_)) => true,
            (Flow::Applying { .. }, Event::ParameterPut(_)) => true,
            _ => false,
        }
    }

    /// The next state and step, given the reply to the last action.
    pub fn step(self, event: Event) -> (r: (Flow, Step))
        requires
            wf(self@),
            accepts(self@, event),
        ensures
            (r.0@, r.1@) == next_spec(self@, event),
            wf(r.0@),
    {
        match self {
            Flow::ListingSecrets { rows } => match event {
                Event::SecretPage(reply) => match sec::list_secrets(reply) {
                    Ok(Some(more)) => {
                        let rows = extend_rows(rows, more);
                        (Flow::ListingSecrets { rows }, call_step(Request::NextSecretPage, owned("Listing secrets…")))
                    },
                    Ok(None) => {
                        let count = rows.len();
                        listed_exec(Output::SecretsTable(rows), count, "secret", "No secrets found.")
                    },
                    Err(e) => fail_exec(e),
                },
                _ => fail_exec(SecParError::Interactive(String::new())),
            },
            Flow::ListingParameters { rows } => match event {
                Event::ParameterPage(reply) => match par::list_parameters(reply) {
                    Ok(Some(more)) => {
                        let rows = extend_rows(rows, more);
                        (Flow::ListingParameters { rows }, call_step(Request::NextParameterPage, owned("Listing parameters…")))
                    },
                    Ok(None) => {
                        let count = rows.len();
                        listed_exec(Output::ParametersTable(rows), count, "parameter", "No parameters found.")
                    },
                    Err(e) => fail_exec(e),
                },
                _ => fail_exec(SecParError::Interactive(String::new())),
            },
            Flow::GatheringSecretNames { target, names } => match event {
                Event::SecretPage(reply) => match sec::list_secrets(reply) {
                    Ok(Some(more)) => {
                        let names = extend_names(names, names_from(&more));
                        (Flow::GatheringSecretNames { target, names },
                            call_step(Request::NextSecretPage, owned("Fetching secrets for selection…")))
                    },
                    Ok(None) => choose_exec("Select a secret", names, target),
                    Err(e) => fail_exec(e),
                },
                _ => fail_exec(SecParError::Interactive(String::new())),
            },
            Flow::GatheringParameterNames { target, names } => match event {
                Event::ParameterPage(reply) => match par::list_parameters(reply) {
                    Ok(Some(more)) => {
                        let names = extend_names(names, names_from(&more));
                        (Flow::GatheringParameterNames { target, names },
                            call_step(Request::NextParameterPage, owned("Fetching parameters for selection…")))
                    },
                    Ok(None) => choose_exec("Select a parameter", names, target),
                    Err(e) => fail_exec(e),
                },
                _ => fail_exec(SecParError::Interactive(String::new())),
            },
            Flow::Choosing { target, items } => match event {
                Event::Selected(answer) => {
                    let sel = Selection { prompt: String::new(), items, default: 0 };
                    match sel.chosen(answer) {
                        Ok(name) => begin_exec(target, name),
                        Err(e) => fail_exec(e),
                    }
                },
                _ => fail_exec(SecParError::Interactive(String::new())),
            },
            Flow::Confirming { target, name } => match event {
                Event::Confirmed(answer) => match crate::ui::confirm_delete(answer) {
                    Ok(true) => confirmed_exec(target, name),
                    Ok(false) => done_exec(one(Output::Text(owned("Aborted.")))),
                    Err(e) => fail_exec(e),
                },
                _ => fail_exec(SecParError::Interactive(String::new())),
            },
            Flow::Awaiting { target, name } => match event {
                Event::SecretValue(reply) => match sec::retrieve_secret(name.as_str(), reply) {
                    Ok(v) => done_exec(one(Output::Text(value_text(name.as_str(), v.as_str())))),
                    Err(e) => fail_exec(e),
                },
                Event::SecretDescribed(reply) => match sec::describe_secret(reply) {
                    Ok(lines) => done_exec(texts(lines)),
                    Err(e) => fail_exec(e),
                },
                Event::SecretDeleted(reply) => match sec::delete_secret(reply) {
                    Ok(()) => {
                        let force = match target {
                            Target::DeleteSecret { force } => force,
                            _ => false,
                        };
                        let msg = sec::deleted_text(name.as_str(), force);
                        done_exec(one(success_output(msg.as_str())))
                    },
                    Err(e) => fail_exec(e),
                },
                Event::ParameterValue(reply) => match par::get_parameter(name.as_str(), reply) {
                    Ok(v) => done_exec(one(Output::Text(value_text(name.as_str(), v.as_str())))),
                    Err(e) => fail_exec(e),
                },
                Event::ParameterDeleted(reply) => match par::delete_parameter(reply) {
                    Ok(()) => {
                        let msg = par::deleted_text(name.as_str());
                        done_exec(one(success_output(msg.as_str())))
                    },
                    Err(e) => fail_exec(e),
                },
                _ => fail_exec(SecParError::Interactive(String::new())),
            },
            Flow::CreatingSecret { name } => match event {
                Event::SecretCreated(reply) => match sec::save_secret(name.as_str(), reply) {
                    Ok(arn) => {
                        let msg = sec::created_text(name.as_str());
                        let arn_line = join2("ARN: ", arn.as_str());
                        done_exec(two(success_output(msg.as_str()), info_output(arn_line.as_str())))
                    },
                    Err(e) => fail_exec(e),
                },
                _ => fail_exec(SecParError::Interactive(String::new())),
            },
            Flow::CreatingParameter { name } => match event {
                Event::ParameterPut(reply) => match par::create_parameter(reply) {
                    Ok(()) => {
                        let msg = par::created_text(name.as_str());
                        done_exec(one(success_output(msg.as_str())))
                    },
                    Err(e) => fail_exec(e),
                },
                _ => fail_exec(SecParError::Interactive(String::new())),
            },
            Flow::ReadingSpec => match event {
                Event::SpecRead(read) => match ParameterStore::new(read) {
                    Ok(store) => put_next_exec(apply_plan(&store.parameters), 0),
                    Err(e) => fail_exec(e),
                },
                _ => fail_exec(SecParError::Interactive(String::new())),
            },
            Flow::Applying { plan, next } => match event {
                Event::ParameterPut(Ok(())) => {
                    assert(plan.deep_view().len() == plan.len());
                    put_next_exec(plan, next + 1)
                },
                Event::ParameterPut(Err(e)) => fail_exec(create_failure(e)),
                _ => fail_exec(SecParError::Interactive(String::new())),
            },
            Flow::Finished => fail_exec(SecParError::Interactive(String::new())),
        }
    }
}

/// Each line as text output.
fn texts(lines: Vec<String>) -> (v: Vec<Output>)
    ensures
        output_views(v@) == lines.deep_view().map_values(|l: Seq<char>| OutputView::Text(l)),
{
    let mut v: Vec<Output> = Vec::new();
    let n = lines.len();
    let ghost lv = lines.deep_view();
    for i in 0..n
        invariant
            n == lines.len(),
            lv == lines.deep_view(),
            output_views(v@) == lv.take(i as int).map_values(|l: Seq<char>| OutputView::Text(l)),
    {
        let ghost prev = output_views(v@);
        v.push(Output::Text(lines[i].clone()));
        assert(output_views(v@) =~= prev.push(OutputView::Text(lv[i as int])));
        assert(output_views(v@) =~= lv.take(i + 1).map_values(|l: Seq<char>| OutputView::Text(l)));
    }
    assert(lv.take(n as int) =~= lv);
    v
}

} // verus!

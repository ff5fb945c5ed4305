//! Validation failures in the shape that handlers send out: per field, under
//! its camelCase name, the list of what was wrong with it.

use crate::utils::string_utils::camel_case;
use crate::utils::string_utils::to_camel_case;
use validator::ValidationErrors;
use vstd::prelude::*;
use vstd::string::StringExecFns;

verus! {

/// `validator::ValidationErrors`: what a validation found wrong. Of what it
/// holds only the issues of the fields themselves have a name here,
/// [`field_errors`].
#[verifier::external_type_specification]
#[verifier::external_body]
pub struct ExValidationErrors(validator::ValidationErrors);

/// The kinds of failure that carry a numeric code.
#[derive(Debug, Clone)]
pub enum CodeError {
    ValidationCodeError,
}

impl CodeError {
    /// The numeric code of the kind.
    pub fn as_num(&self) -> (n: i16)
        ensures
            n == 0,
    {
        match *self {
            CodeError::ValidationCodeError => 0,
        }
    }
}

/// One thing that was wrong with a field, as the validator reports it.
pub struct FieldIssue {
    /// Which rule failed.
    pub code: String,
    /// What to tell the user, where the rule says so.
    pub message: Option<String>,
}

/// All that was wrong with one field.
pub struct FieldIssues {
    /// The field's name as the validated struct spells it.
    pub field: String,
    /// What was wrong with it, in the validator's order.
    pub issues: Vec<FieldIssue>,
}

/// One issue as text.
pub struct IssueText {
    pub code: Seq<char>,
    pub message: Option<Seq<char>>,
}

/// The issues of one field as text.
pub struct FieldText {
    pub field: Seq<char>,
    pub issues: Seq<IssueText>,
}

impl View for FieldIssue {
    type V = IssueText;

    open spec fn view(&self) -> IssueText {
        IssueText {
            code: self.code@,
            message: match self.message {
                Some(m) => Some(m@),
                None => None,
            },
        }
    }
}

impl View for FieldIssues {
    type V = FieldText;

    open spec fn view(&self) -> FieldText {
        FieldText { field: self.field@, issues: self.issues@.map_values(|issue: FieldIssue| issue@) }
    }
}

/// A list of fields as text.
pub open spec fn fields_text(fields: Seq<FieldIssues>) -> Seq<FieldText> {
    fields.map_values(|field: FieldIssues| field@)
}

/// Code and message of one failure, as text.
pub struct ErrorText {
    pub code: Seq<char>,
    pub message: Seq<char>,
}

/// One failure as it is sent out. An issue without a message has the empty
/// message here.
#[derive(Debug, Clone)]
pub struct Error {
    code: String,
    message: String,
}

impl View for Error {
    type V = ErrorText;

    closed spec fn view(&self) -> ErrorText {
        ErrorText { code: self.code@, message: self.message@ }
    }
}

impl Error {
    /// Which rule failed.
    pub fn code(&self) -> (code: &String)
        ensures
            code@ == self@.code,
    {
        &self.code
    }

    /// What to tell the user; empty where the rule gave no message.
    pub fn message(&self) -> (message: &String)
        ensures
            message@ == self@.message,
    {
        &self.message
    }

    /// The failure that stands for an issue.
    pub fn of_issue(issue: &FieldIssue) -> (error: Error)
        ensures
            error@ == issue_text(issue@),
    {
        let message = match &issue.message {
            Some(v) => v.clone(),
            None => String::new(),
        };
        Error { code: issue.code.clone(), message }
    }
}

/// The failures listed under one name.
struct FieldReport {
    field: String,
    errors: Vec<Error>,
}

/// All failures of one validation, by field name.
pub struct ValidationError {
    code: i16,
    errors: Vec<FieldReport>,
}

/// The text of the failure that stands for an issue.
pub open spec fn issue_text(issue: IssueText) -> ErrorText {
    ErrorText {
        code: issue.code,
        message: match issue.message {
            Some(m) => m,
            None => Seq::empty(),
        },
    }
}

/// Files one issue of `field`. Where the map already has an entry under the
/// field's name as it is spelled, the failure joins that entry. Otherwise it
/// starts an entry of its own under the camelCase name, and an entry that
/// was there under that name is lost.
pub open spec fn add_issue(
    filed: Map<Seq<char>, Seq<ErrorText>>,
    field: Seq<char>,
    issue: IssueText,
) -> Map<Seq<char>, Seq<ErrorText>> {
    if filed.contains_key(field) {
        filed.insert(field, filed[field].push(issue_text(issue)))
    } else {
        filed.insert(camel_case(field), seq![issue_text(issue)])
    }
}

/// Files the issues of one field, first to last.
pub open spec fn add_issues(
    filed: Map<Seq<char>, Seq<ErrorText>>,
    field: Seq<char>,
    issues: Seq<IssueText>,
) -> Map<Seq<char>, Seq<ErrorText>>
    decreases issues.len(),
{
    if issues.len() == 0 {
        filed
    } else {
        add_issue(add_issues(filed, field, issues.drop_last()), field, issues.last())
    }
}

/// Files the issues of all fields, first field to last.
pub open spec fn add_fields(
    filed: Map<Seq<char>, Seq<ErrorText>>,
    fields: Seq<FieldText>,
) -> Map<Seq<char>, Seq<ErrorText>>
    decreases fields.len(),
{
    if fields.len() == 0 {
        filed
    } else {
        add_issues(add_fields(filed, fields.drop_last()), fields.last().field, fields.last().issues)
    }
}

/// What a `ValidationErrors` holds for the fields themselves: by field name,
/// the issues of each field that has a list of its own. Nested structs and
/// lists are not part of it.
pub uninterp spec fn field_errors(errors: ValidationErrors) -> Map<Seq<char>, Seq<IssueText>>;

/// `fields` lists `held`: every name of the map once, in some order, each
/// with its issues.
pub open spec fn lists(fields: Seq<FieldText>, held: Map<Seq<char>, Seq<IssueText>>) -> bool {
    &&& forall|i: int, j: int|
        0 <= i < j < fields.len() ==> (#[trigger] fields[i]).field != (#[trigger] fields[j]).field
    &&& forall|i: int|
        0 <= i < fields.len() ==> held.contains_key((#[trigger] fields[i]).field) && held[fields[i].field]
            == fields[i].issues
    &&& forall|name: Seq<char>|
        held.contains_key(name) ==> exists|i: int|
            0 <= i < fields.len() && (#[trigger] fields[i]).field == name
}

/// `ValidationErrors::field_errors`, each entry copied out as strings. The
/// crate collects the entries into a hash map, so every field comes once and
/// the order is whatever the walk over that map gives.
#[verifier::external_body]
fn field_issues_of(val_errors: &ValidationErrors) -> (fields: Vec<FieldIssues>)
    ensures
        lists(fields_text(fields@), field_errors(*val_errors)),
{
    val_errors.field_errors().iter().map(|(field_key, field_val)| FieldIssues {
        field: field_key.to_string(),
        issues: field_val.iter().map(|val| FieldIssue {
            code: val.code.to_string(),
            message: val.message.as_ref().map(|v| v.to_string()),
        }).collect(),
    }).collect()
}

/// No name occurs twice in the list of reports.
spec fn distinct_reports(reports: Seq<FieldReport>) -> bool {
    forall|i: int, j: int|
        0 <= i < j < reports.len() ==> (#[trigger] reports[i]).field@ != (
        #[trigger] reports[j]).field@
}

/// Whether a name has a report.
spec fn has_report(reports: Seq<FieldReport>, name: Seq<char>) -> bool {
    exists|i: int| 0 <= i < reports.len() && (#[trigger] reports[i]).field@ == name
}

/// Where the report of a name stands.
spec fn report_index(reports: Seq<FieldReport>, name: Seq<char>) -> int {
    choose|i: int| 0 <= i < reports.len() && (#[trigger] reports[i]).field@ == name
}

/// The texts of a list of failures.
spec fn texts(errors: Seq<Error>) -> Seq<ErrorText> {
    errors.map_values(|e: Error| e@)
}

/// The list of reports as a map from name to failures.
spec fn reports_map(reports: Seq<FieldReport>) -> Map<Seq<char>, Seq<ErrorText>> {
    Map::new(
        |name: Seq<char>| has_report(reports, name),
        |name: Seq<char>| texts(reports[report_index(reports, name)].errors@),
    )
}

proof fn lemma_report_at(reports: Seq<FieldReport>, i: int)
    requires
        distinct_reports(reports),
        0 <= i < reports.len(),
    ensures
        has_report(reports, reports[i].field@),
        report_index(reports, reports[i].field@) == i,
        reports_map(reports)[reports[i].field@] == texts(reports[i].errors@),
{
    let name = reports[i].field@;
    assert(has_report(reports, name));
    let j = report_index(reports, name);
    assert(reports[j].field@ == name);
    if j < i {
        assert(reports[j].field@ != reports[i].field@);
    } else if i < j {
        assert(reports[i].field@ != reports[j].field@);
    }
}

impl ValidationError {
    #[verifier::type_invariant]
    spec fn names_are_distinct(&self) -> bool {
        distinct_reports(self.errors@)
    }

    /// The numeric code of the failure.
    pub closed spec fn spec_code(&self) -> i16 {
        self.code
    }

    /// The failures by field name.
    pub closed spec fn errors_view(&self) -> Map<Seq<char>, Seq<ErrorText>> {
        reports_map(self.errors@)
    }

    /// The numeric code of the failure.
    pub fn code(&self) -> (code: i16)
        ensures
            code == self.spec_code(),
    {
        self.code
    }
}

/// Where the report of `name` stands, if it has one.
fn find_report(reports: &Vec<FieldReport>, name: &String) -> (found: Option<usize>)
    requires
        distinct_reports(reports@),
    ensures
        match found {
            Some(i) => i < reports@.len() && reports@[i as int].field@ == name@,
            None => !has_report(reports@, name@),
        },
{
    let mut i: usize = 0;
    while i < reports.len()
        invariant
            i <= reports@.len(),
            forall|j: int| 0 <= j < i ==> (#[trigger] reports@[j]).field@ != name@,
        decreases reports@.len() - i,
    {
        if reports[i].field == *name {
            return Some(i);
        }
        i = i + 1;
    }
    None
}

/// Replacing the failures of the report at `i` replaces the entry of its
/// name and touches nothing else.
proof fn lemma_report_replaced(before: Seq<FieldReport>, after: Seq<FieldReport>, i: int)
    requires
        distinct_reports(before),
        0 <= i < before.len(),
        after == before.update(i, after[i]),
        after[i].field@ == before[i].field@,
    ensures
        distinct_reports(after),
        reports_map(after) == reports_map(before).insert(
            before[i].field@,
            texts(after[i].errors@),
        ),
{
    assert forall|a: int, b: int| 0 <= a < b < after.len() implies (#[trigger] after[a]).field@ != (
    #[trigger] after[b]).field@ by {
        assert(before[a].field@ != before[b].field@);
    }
    assert forall|k: Seq<char>| has_report(after, k) == has_report(before, k) by {
        if has_report(after, k) {
            let j = report_index(after, k);
            assert(before[j].field@ == k);
        }
        if has_report(before, k) {
            let j = report_index(before, k);
            assert(after[j].field@ == k);
        }
    }
    assert forall|k: Seq<char>| has_report(after, k) implies #[trigger] reports_map(after)[k]
        == reports_map(before).insert(before[i].field@, texts(after[i].errors@))[k] by {
        let j = report_index(after, k);
        lemma_report_at(after, j);
        assert(before[j].field@ == k);
        lemma_report_at(before, j);
    }
    assert(reports_map(after) =~= reports_map(before).insert(
        before[i].field@,
        texts(after[i].errors@),
    ));
}

/// A report under a name that has none yet adds the entry of that name and
/// touches nothing else.
proof fn lemma_report_added(before: Seq<FieldReport>, report: FieldReport)
    requires
        distinct_reports(before),
        !has_report(before, report.field@),
    ensures
        distinct_reports(before.push(report)),
        reports_map(before.push(report)) == reports_map(before).insert(
            report.field@,
            texts(report.errors@),
        ),
{
    let after = before.push(report);
    let last = after.len() - 1;
    let key = report.field@;
    assert forall|a: int, b: int| 0 <= a < b < after.len() implies (#[trigger] after[a]).field@ != (
    #[trigger] after[b]).field@ by {
        if b == last {
            assert(before[a].field@ != key);
        } else {
            assert(before[a].field@ != before[b].field@);
        }
    }
    assert(after[last].field@ == key);
    assert forall|k: Seq<char>| has_report(after, k) == (has_report(before, k) || k == key) by {
        if has_report(after, k) {
            let j = report_index(after, k);
            if j < last {
                assert(before[j].field@ == k);
            }
        }
        if has_report(before, k) {
            let j = report_index(before, k);
            assert(after[j].field@ == k);
        }
    }
    assert forall|k: Seq<char>| has_report(after, k) implies #[trigger] reports_map(after)[k]
        == reports_map(before).insert(key, texts(report.errors@))[k] by {
        let j = report_index(after, k);
        lemma_report_at(after, j);
        if j < last {
            assert(before[j].field@ == k);
            lemma_report_at(before, j);
        }
    }
    assert(reports_map(after) =~= reports_map(before).insert(key, texts(report.errors@)));
}

/// Puts `errors` under `name`, in place of what was there.
fn put_report(reports: &mut Vec<FieldReport>, name: String, errors: Vec<Error>)
    requires
        distinct_reports(old(reports)@),
    ensures
        distinct_reports(final(reports)@),
        reports_map(final(reports)@) == reports_map(old(reports)@).insert(name@, texts(errors@)),
{
    let ghost before = reports@;
    match find_report(reports, &name) {
        Some(i) => {
            let _ = reports.remove(i);
            reports.insert(i, FieldReport { field: name, errors });
            proof {
                assert(reports@ =~= before.update(i as int, reports@[i as int]));
                lemma_report_replaced(before, reports@, i as int);
            }
        },
        None => {
            let report = FieldReport { field: name, errors };
            proof {
                lemma_report_added(before, report);
            }
            reports.push(report);
        },
    }
}

/// Adds `error` to the failures that stand under the report at `i`.
fn extend_report(reports: &mut Vec<FieldReport>, i: usize, error: Error)
    requires
        distinct_reports(old(reports)@),
        i < old(reports)@.len(),
    ensures
        distinct_reports(final(reports)@),
        reports_map(final(reports)@) == reports_map(old(reports)@).insert(
            old(reports)@[i as int].field@,
            reports_map(old(reports)@)[old(reports)@[i as int].field@].push(error@),
        ),
{
    let ghost before = reports@;
    proof {
        lemma_report_at(before, i as int);
    }
    let FieldReport { field, errors } = reports.remove(i);
    let mut errors = errors;
    let ghost earlier = errors@;
    errors.push(error);
    proof {
        assert(texts(errors@) =~= texts(earlier).push(error@));
    }
    reports.insert(i, FieldReport { field, errors });
    proof {
        assert(reports@ =~= before.update(i as int, reports@[i as int]));
        lemma_report_replaced(before, reports@, i as int);
    }
}

impl ValidationError {
    /// The failures listed under `name`, the name being the key as it is sent
    /// out; `None` where the name has none.
    pub fn errors_of(&self, name: &String) -> (found: Option<&Vec<Error>>)
        ensures
            match found {
                Some(errors) => self.errors_view().contains_key(name@) && self.errors_view()[name@]
                    == errors@.map_values(|e: Error| e@),
                None => !self.errors_view().contains_key(name@),
            },
    {
        proof {
            use_type_invariant(self);
        }
        match find_report(&self.errors, name) {
            Some(i) => {
                proof {
                    lemma_report_at(self.errors@, i as int);
                }
                Some(&self.errors[i].errors)
            },
            None => None,
        }
    }

    /// The names that have failures listed, each once.
    pub fn fields(&self) -> (names: Vec<String>)
        ensures
            names@.len() == self.errors_view().dom().len(),
            forall|i: int| 0 <= i < names@.len() ==> self.errors_view().contains_key(
                #[trigger] names@[i]@,
            ),
            forall|name: Seq<char>|
                self.errors_view().contains_key(name) ==> exists|i: int|
                    0 <= i < names@.len() && #[trigger] names@[i]@ == name,
            forall|i: int, j: int|
                0 <= i < j < names@.len() ==> (#[trigger] names@[i])@ != (#[trigger] names@[j])@,
    {
        proof {
            use_type_invariant(self);
        }
        let mut names: Vec<String> = Vec::new();
        let mut i: usize = 0;
        while i < self.errors.len()
            invariant
                i <= self.errors@.len(),
                names@.len() == i,
                forall|j: int| 0 <= j < i ==> (#[trigger] names@[j])@ == self.errors@[j].field@,
            decreases self.errors@.len() - i,
        {
            names.push(self.errors[i].field.clone());
            i = i + 1;
        }
        proof {
            let reports = self.errors@;
            assert forall|j: int| 0 <= j < names@.len() implies self.errors_view().contains_key(
                #[trigger] names@[j]@,
            ) by {
                lemma_report_at(reports, j);
            }
            assert forall|name: Seq<char>| self.errors_view().contains_key(name) implies exists|
                j: int,
            |
                0 <= j < names@.len() && #[trigger] names@[j]@ == name by {
                let j = report_index(reports, name);
                assert(names@[j]@ == name);
            }
            assert forall|a: int, b: int| 0 <= a < b < names@.len() implies (#[trigger] names@[a])@
                != (#[trigger] names@[b])@ by {
                assert(reports[a].field@ != reports[b].field@);
            }
            lemma_domain_size(reports);
        }
        names
    }

    /// Files the issues of the given fields, in the order of the list, under
    /// the code of a validation failure.
    pub fn from_fields(fields: &Vec<FieldIssues>) -> (failure: Self)
        ensures
            failure.spec_code() == 0,
            failure.errors_view() == add_fields(Map::empty(), fields_text(fields@)),
    {
        let ghost all = fields_text(fields@);
        let mut reports: Vec<FieldReport> = Vec::new();
        proof {
            assert(reports_map(reports@) =~= Map::<Seq<char>, Seq<ErrorText>>::empty());
        }
        let mut f: usize = 0;
        while f < fields.len()
            invariant
                f <= fields@.len(),
                distinct_reports(reports@),
                reports_map(reports@) == add_fields(Map::empty(), all.take(f as int)),
                all == fields_text(fields@),
            decreases fields@.len() - f,
        {
            let field_key = &fields[f].field;
            let field_val = &fields[f].issues;
            let ghost start = reports_map(reports@);
            let ghost issues = all[f as int].issues;
            proof {
                assert(field_key@ == all[f as int].field);
                assert(issues == field_val@.map_values(|issue: FieldIssue| issue@));
            }
            let mut v: usize = 0;
            while v < field_val.len()
                invariant
                    v <= field_val@.len(),
                    distinct_reports(reports@),
                    reports_map(reports@) == add_issues(start, field_key@, issues.take(v as int)),
                    issues == field_val@.map_values(|issue: FieldIssue| issue@),
                decreases field_val@.len() - v,
            {
                let val = &field_val[v];
                proof {
                    assert(issues.take(v + 1).drop_last() == issues.take(v as int));
                    assert(issues[v as int] == val@);
                }
                match find_report(&reports, field_key) {
                    Some(x) => {
                        proof {
                            lemma_report_at(reports@, x as int);
                        }
                        extend_report(&mut reports, x, Error::of_issue(val));
                    },
                    None => {
                        let errors: Vec<Error> = vec![Error::of_issue(val)];
                        proof {
                            assert(texts(errors@) =~= seq![issue_text(val@)]);
                        }
                        put_report(&mut reports, to_camel_case(field_key.as_str()), errors);
                    },
                }
                v = v + 1;
            }
            proof {
                assert(issues.take(issues.len() as int) == issues);
                assert(all.take(f + 1).drop_last() == all.take(f as int));
            }
            f = f + 1;
        }
        proof {
            assert(all.take(all.len() as int) == all);
        }
        ValidationError { code: CodeError::as_num(&CodeError::ValidationCodeError), errors: reports }
    }

    /// Files what the validator found wrong with the fields themselves. The
    /// fields are taken in the order in which the validator's map hands them
    /// out, which is not fixed; for that order the result is that of
    /// [`ValidationError::from_fields`].
    pub fn from(val_errors: &ValidationErrors) -> (failure: Self)
        ensures
            failure.spec_code() == 0,
            exists|listing: Seq<FieldText>|
                lists(listing, field_errors(*val_errors)) && failure.errors_view() == #[trigger] add_fields(
                    Map::empty(),
                    listing,
                ),
    {
        let fields = field_issues_of(val_errors);
        let failure = ValidationError::from_fields(&fields);
        assert(failure.errors_view() == add_fields(Map::empty(), fields_text(fields@)));
        failure
    }
}

/// A list without a repeated name has as many names as entries.
proof fn lemma_domain_size(reports: Seq<FieldReport>)
    requires
        distinct_reports(reports),
    ensures
        reports_map(reports).dom().finite(),
        reports_map(reports).dom().len() == reports.len(),
    decreases reports.len(),
{
    if reports.len() == 0 {
        assert(reports_map(reports).dom() =~= Set::<Seq<char>>::empty());
    } else {
        let front = reports.drop_last();
        let name = reports.last().field@;
        assert(distinct_reports(front)) by {
            assert forall|a: int, b: int| 0 <= a < b < front.len() implies (#[trigger] front[a]).field@
                != (#[trigger] front[b]).field@ by {
                assert(reports[a].field@ != reports[b].field@);
            }
        }
        lemma_domain_size(front);
        assert(!has_report(front, name)) by {
            if has_report(front, name) {
                let j = report_index(front, name);
                assert(reports[j].field@ != reports[reports.len() - 1].field@);
            }
        }
        assert(reports_map(reports).dom() =~= reports_map(front).dom().insert(name)) by {
            assert forall|k: Seq<char>| has_report(reports, k) == (has_report(front, k) || k
                == name) by {
                if has_report(reports, k) {
                    let j = report_index(reports, k);
                    if j < front.len() {
                        assert(front[j].field@ == k);
                    }
                }
                if has_report(front, k) {
                    let j = report_index(front, k);
                    assert(reports[j].field@ == k);
                }
                if k == name {
                    assert(reports[reports.len() - 1].field@ == k);
                }
            }
        }
    }
}

/// The issues of a list as text.
pub open spec fn issues_text(issues: Seq<FieldIssue>) -> Seq<IssueText> {
    issues.map_values(|issue: FieldIssue| issue@)
}

/// What a client hears of a failed validation when it is told of one issue
/// only.
#[derive(Debug, Clone, PartialEq, Eq)]
pub enum RenderedError {
    /// 400 with the issue's message.
    BadRequest(String),
    /// 500 with a note for the developers.
    InternalServerError(String),
}

/// The first entry of the validator's `errors` map, where it is the list of
/// a field's issues, copied out as strings. Which entry the map hands out
/// first is not fixed. An empty map, and a first entry that is a nested
/// struct or list, give nothing.
#[verifier::external_body]
fn first_field_entry(val_errors: &ValidationErrors) -> (entry: Option<Vec<FieldIssue>>)
    ensures
        entry matches Some(issues) ==> exists|name: Seq<char>|
            #![trigger field_errors(*val_errors)[name]]
            field_errors(*val_errors).contains_key(name) && field_errors(*val_errors)[name]
                == issues_text(issues@),
        (forall|name: Seq<char>| !field_errors(*val_errors).contains_key(name)) ==> entry is None,
{
    match val_errors.errors().values().next() {
        Some(validator::ValidationErrorsKind::Field(list)) => Some(
            list.iter().map(|val| FieldIssue {
                code: val.code.to_string(),
                message: val.message.as_ref().map(|v| v.to_string()),
            }).collect(),
        ),
        Some(validator::ValidationErrorsKind::Struct(_)) => None,
        Some(validator::ValidationErrorsKind::List(_)) => None,
        None => None,
    }
}

/// What stands for an issue that has no message.
pub open spec fn no_message_for(code: Seq<char>) -> Seq<char> {
    "No validation message for: "@ + code
}

/// What a client hears, from the first entry of the validator's errors: the
/// message of the entry's first issue as a bad request; and a server error
/// where that issue has no message, where the entry has no issue, and where
/// there is no entry of a field at all.
pub open spec fn rendered(first: Option<Seq<IssueText>>) -> (bool, Seq<char>) {
    match first {
        Some(issues) => if issues.len() > 0 {
            match issues[0].message {
                Some(message) => (true, message),
                None => (false, no_message_for(issues[0].code)),
            }
        } else {
            (false, "Empty field errors"@)
        },
        None => (false, "Malformed validation"@),
    }
}

impl RenderedError {
    /// Whether the error is a bad request, and its words.
    pub open spec fn view(&self) -> (bool, Seq<char>) {
        match self {
            RenderedError::BadRequest(message) => (true, message@),
            RenderedError::InternalServerError(message) => (false, message@),
        }
    }
}

/// What a client hears, from the first entry of the validator's errors as
/// [`render_single_validation_error`] finds it.
pub fn render_first_entry(first: Option<&Vec<FieldIssue>>) -> (error: RenderedError)
    ensures
        error@ == rendered(
            match first {
                Some(issues) => Some(issues_text(issues@)),
                None => None,
            },
        ),
{
    match first {
        Some(field_errors) => {
            if field_errors.len() > 0 {
                let field_error = &field_errors[0];
                assert(issues_text(field_errors@)[0] == field_error@);
                match &field_error.message {
                    Some(message) => RenderedError::BadRequest(message.clone()),
                    None => {
                        let mut text = String::from_str("No validation message for: ");
                        text.append(field_error.code.as_str());
                        RenderedError::InternalServerError(text)
                    },
                }
            } else {
                RenderedError::InternalServerError(String::from_str("Empty field errors"))
            }
        },
        None => RenderedError::InternalServerError(String::from_str("Malformed validation")),
    }
}

/// What a client hears of a failed validation: one issue only, the first of
/// the entry that the validator's map hands out first. For that entry the
/// answer is that of [`render_first_entry`]; without any field that has
/// issues of its own it is the answer for no entry.
pub fn render_single_validation_error(err: &ValidationErrors) -> (error: RenderedError)
    ensures
        exists|first: Option<Seq<IssueText>>|
            error@ == #[trigger] rendered(first) && (first matches Some(issues) ==> exists|
                name: Seq<char>,
            |
                #![trigger field_errors(*err)[name]]
                field_errors(*err).contains_key(name) && field_errors(*err)[name] == issues),
        (forall|name: Seq<char>| !field_errors(*err).contains_key(name)) ==> error@ == rendered(
            None,
        ),
{
    let entry = first_field_entry(err);
    let error = match &entry {
        Some(issues) => render_first_entry(Some(issues)),
        None => render_first_entry(None),
    };
    proof {
        let first = match entry {
            Some(issues) => Some(issues_text(issues@)),
            None => None,
        };
        assert(error@ == rendered(first));
    }
    error
}

} // verus!

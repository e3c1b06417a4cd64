//! The JSON form of test results: the payload an evaluation prints, and the
//! per-file records of the machine-readable report.
use vstd::prelude::*;

use crate::json::{
    as_bool, as_number, as_str, bool_of, deref_opt, field_of, get_field, json_of_bytes,
    lemma_field_absent, lemma_field_at, number_of, parse_json, str_of, JsonValue,
};
use crate::reports::{
    checks_view, opt_view, strings_view, tests_view, CheckModel, CheckReport, FileModel,
    TestFileCompletedReport, TestFileErroredReport, TestFileReport, TestFileTimedOutReport,
    TestModel, TestReport,
};

verus! {

/// An optional string member: absent or `null` gives `None`.
pub open spec fn optional_str(v: Option<JsonValue>) -> Option<Option<Seq<char>>> {
    match v {
        None => Some(None),
        Some(JsonValue::Null) => Some(None),
        Some(JsonValue::Str(s)) => Some(Some(s@)),
        _ => None,
    }
}

/// A check: `name` and `success` are required, `failure` may be absent or
/// `null`, and an absent `location` reads as empty.
pub open spec fn check_of_json(v: JsonValue) -> Option<CheckModel> {
    match v {
        JsonValue::Object(fs) => {
            let name = str_of(field_of(fs@, "name"@));
            let success = bool_of(field_of(fs@, "success"@));
            let failure = optional_str(field_of(fs@, "failure"@));
            let location = field_of(fs@, "location"@);
            let loc = if location is None {
                Some(Seq::<char>::empty())
            } else {
                str_of(location)
            };
            if name is Some && success is Some && failure is Some && loc is Some {
                Some(
                    CheckModel {
                        name: name->0,
                        success: success->0,
                        failure: failure->0,
                        location: loc->0,
                    },
                )
            } else {
                None
            }
        },
        _ => None,
    }
}

/// An array of strings.
pub open spec fn strings_of_json(v: Option<JsonValue>) -> Option<Seq<Seq<char>>> {
    match v {
        Some(JsonValue::Array(items)) => if forall|i: int|
            0 <= i < items@.len() ==> #[trigger] items@[i] is Str {
            Some(Seq::new(items@.len(), |i: int| items@[i]->Str_0@))
        } else {
            None
        },
        _ => None,
    }
}

/// An array of checks.
pub open spec fn checks_of_json(v: Option<JsonValue>) -> Option<Seq<CheckModel>> {
    match v {
        Some(JsonValue::Array(items)) => if forall|i: int|
            0 <= i < items@.len() ==> #[trigger] check_of_json(items@[i]) is Some {
            Some(Seq::new(items@.len(), |i: int| check_of_json(items@[i])->0))
        } else {
            None
        },
        _ => None,
    }
}

/// A test: `success`, `path`, `location` and `checks` are all required.
pub open spec fn test_of_json(v: JsonValue) -> Option<TestModel> {
    match v {
        JsonValue::Object(fs) => {
            let success = bool_of(field_of(fs@, "success"@));
            let path = strings_of_json(field_of(fs@, "path"@));
            let location = str_of(field_of(fs@, "location"@));
            let checks = checks_of_json(field_of(fs@, "checks"@));
            if success is Some && path is Some && location is Some && checks is Some {
                Some(
                    TestModel {
                        success: success->0,
                        path: path->0,
                        location: location->0,
                        checks: checks->0,
                    },
                )
            } else {
                None
            }
        },
        _ => None,
    }
}

/// The payload of an evaluation: an array of tests.
pub open spec fn tests_of_json(v: JsonValue) -> Option<Seq<TestModel>> {
    match v {
        JsonValue::Array(items) => if forall|i: int|
            0 <= i < items@.len() ==> #[trigger] test_of_json(items@[i]) is Some {
            Some(Seq::new(items@.len(), |i: int| test_of_json(items@[i])->0))
        } else {
            None
        },
        _ => None,
    }
}

/// A per-file record, tagged by `status`.
pub open spec fn file_of_json(v: JsonValue) -> Option<FileModel> {
    match v {
        JsonValue::Object(fs) => {
            let status = str_of(field_of(fs@, "status"@));
            let file = str_of(field_of(fs@, "file"@));
            let elapsed = number_of(field_of(fs@, "elapsed"@));
            if status is None || file is None || elapsed is None {
                None
            } else if status->0 == "completed"@ {
                match field_of(fs@, "tests"@) {
                    Some(t) => match tests_of_json(t) {
                        Some(tests) => Some(
                            FileModel::Completed { tests, file: file->0, elapsed: elapsed->0 },
                        ),
                        None => None,
                    },
                    None => None,
                }
            } else if status->0 == "errored"@ {
                match str_of(field_of(fs@, "error"@)) {
                    Some(error) => Some(
                        FileModel::Errored { file: file->0, error, elapsed: elapsed->0 },
                    ),
                    None => None,
                }
            } else if status->0 == "timed_out"@ {
                match number_of(field_of(fs@, "timeout"@)) {
                    Some(t) => if t <= u64::MAX {
                        Some(
                            FileModel::TimedOut {
                                file: file->0,
                                timeout: t as u64,
                                elapsed: elapsed->0,
                            },
                        )
                    } else {
                        None
                    },
                    None => None,
                }
            } else {
                None
            }
        },
        _ => None,
    }
}

/// `v` is the string `s`.
pub open spec fn str_is(v: JsonValue, s: Seq<char>) -> bool {
    v matches JsonValue::Str(t) && t@ == s
}

/// `v` is an object whose members have exactly the names `keys`, in order.
pub open spec fn members_are(v: JsonValue, keys: Seq<Seq<char>>) -> bool {
    v matches JsonValue::Object(fs) && fs@.len() == keys.len() && forall|i: int|
        0 <= i < keys.len() ==> (#[trigger] fs@[i]).0@ == keys[i]
}

/// The value of the member at `i` of an object.
pub open spec fn member_at(v: JsonValue, i: int) -> JsonValue {
    v->Object_0@[i].1
}

/// The record written for a check: `name`, `success`, then `failure` when
/// there is one, then `location`.
pub open spec fn check_json_is(v: JsonValue, c: CheckModel) -> bool {
    &&& str_is(member_at(v, 0), c.name)
    &&& member_at(v, 1) == JsonValue::Bool(c.success)
    &&& match c.failure {
        Some(f) => {
            &&& members_are(v, seq!["name"@, "success"@, "failure"@, "location"@])
            &&& str_is(member_at(v, 2), f)
            &&& str_is(member_at(v, 3), c.location)
        },
        None => {
            &&& members_are(v, seq!["name"@, "success"@, "location"@])
            &&& str_is(member_at(v, 2), c.location)
        },
    }
}

/// The record written for a test: `success`, `path`, `location`, `checks`.
pub open spec fn test_json_is(v: JsonValue, t: TestModel) -> bool {
    &&& members_are(v, seq!["success"@, "path"@, "location"@, "checks"@])
    &&& member_at(v, 0) == JsonValue::Bool(t.success)
    &&& member_at(v, 1) matches JsonValue::Array(items) && items@.len() == t.path.len() && forall|i: int|
        0 <= i < t.path.len() ==> str_is(#[trigger] items@[i], t.path[i])
    &&& str_is(member_at(v, 2), t.location)
    &&& member_at(v, 3) matches JsonValue::Array(items) && items@.len() == t.checks.len()
        && forall|i: int| 0 <= i < t.checks.len() ==> check_json_is(#[trigger] items@[i], t.checks[i])
}

/// The record written for a file outcome: `status` first, then the fields
/// of its kind.
pub open spec fn file_json_is(v: JsonValue, m: FileModel) -> bool {
    match m {
        FileModel::Completed { tests, file, elapsed } => {
            &&& members_are(v, seq!["status"@, "tests"@, "file"@, "elapsed"@])
            &&& str_is(member_at(v, 0), "completed"@)
            &&& member_at(v, 1) matches JsonValue::Array(items) && items@.len() == tests.len()
                && forall|i: int| 0 <= i < tests.len() ==> test_json_is(#[trigger] items@[i], tests[i])
            &&& str_is(member_at(v, 2), file)
            &&& member_at(v, 3) == JsonValue::Number(elapsed)
        },
        FileModel::Errored { file, error, elapsed } => {
            &&& members_are(v, seq!["status"@, "file"@, "error"@, "elapsed"@])
            &&& str_is(member_at(v, 0), "errored"@)
            &&& str_is(member_at(v, 1), file)
            &&& str_is(member_at(v, 2), error)
            &&& member_at(v, 3) == JsonValue::Number(elapsed)
        },
        FileModel::TimedOut { file, timeout, elapsed } => {
            &&& members_are(v, seq!["status"@, "file"@, "timeout"@, "elapsed"@])
            &&& str_is(member_at(v, 0), "timed_out"@)
            &&& str_is(member_at(v, 1), file)
            &&& member_at(v, 2) == JsonValue::Number(timeout as u128)
            &&& member_at(v, 3) == JsonValue::Number(elapsed)
        },
    }
}

pub open spec fn opt_check(r: Option<CheckReport>) -> Option<CheckModel> {
    match r {
        Some(c) => Some(c@),
        None => None,
    }
}

pub open spec fn opt_test(r: Option<TestReport>) -> Option<TestModel> {
    match r {
        Some(t) => Some(t@),
        None => None,
    }
}

pub open spec fn opt_file(r: Option<TestFileReport>) -> Option<FileModel> {
    match r {
        Some(f) => Some(f@),
        None => None,
    }
}

/// Reads a check.
pub fn decode_check(v: &JsonValue) -> (r: Option<CheckReport>)
    ensures
        opt_check(r) == check_of_json(*v),
{
    match v {
        JsonValue::Object(fs) => {
            let name = as_str(get_field(fs, "name"));
            let success = as_bool(get_field(fs, "success"));
            let failure: Option<String> = match get_field(fs, "failure") {
                None => None,
                Some(JsonValue::Null) => None,
                Some(JsonValue::Str(s)) => Some(s.clone()),
                Some(_) => {
                    return None;
                },
            };
            let location_field = get_field(fs, "location");
            let location = if location_field.is_none() {
                Some(String::new())
            } else {
                as_str(location_field)
            };
            match (name, success, location) {
                (Some(name), Some(success), Some(location)) => Some(
                    CheckReport { name, success, failure, location },
                ),
                _ => None,
            }
        },
        _ => None,
    }
}

/// Reads an array of strings.
pub fn decode_strings(v: Option<&JsonValue>) -> (r: Option<Vec<String>>)
    ensures
        match r {
            Some(x) => strings_of_json(deref_opt(v)) == Some(strings_view(x@)),
            None => strings_of_json(deref_opt(v)) is None,
        },
{
    match v {
        Some(JsonValue::Array(items)) => {
            let mut out: Vec<String> = Vec::new();
            let mut i: usize = 0;
            while i < items.len()
                invariant
                    i <= items.len(),
                    out@.len() == i,
                    deref_opt(v) == Some(JsonValue::Array(*items)),
                    forall|j: int| 0 <= j < i ==> #[trigger] items@[j] is Str,
                    forall|j: int| 0 <= j < i ==> #[trigger] out@[j]@ == items@[j]->Str_0@,
                decreases items.len() - i,
            {
                match &items[i] {
                    JsonValue::Str(s) => out.push(s.clone()),
                    _ => {
                        assert(!(items@[i as int] is Str));
                        assert(!(forall|j: int| 0 <= j < items@.len() ==> #[trigger] items@[j] is Str));
                        assert(strings_of_json(deref_opt(v)) is None);
                        return None;
                    },
                }
                i = i + 1;
            }
            assert(strings_view(out@) =~= Seq::new(items@.len(), |i: int| items@[i]->Str_0@));
            Some(out)
        },
        _ => None,
    }
}

/// Reads an array of checks.
pub fn decode_checks(v: Option<&JsonValue>) -> (r: Option<Vec<CheckReport>>)
    ensures
        match r {
            Some(x) => checks_of_json(deref_opt(v)) == Some(checks_view(x@)),
            None => checks_of_json(deref_opt(v)) is None,
        },
{
    match v {
        Some(JsonValue::Array(items)) => {
            let mut out: Vec<CheckReport> = Vec::new();
            let mut i: usize = 0;
            while i < items.len()
                invariant
                    i <= items.len(),
                    out@.len() == i,
                    deref_opt(v) == Some(JsonValue::Array(*items)),
                    forall|j: int| 0 <= j < i ==> #[trigger] check_of_json(items@[j]) is Some,
                    forall|j: int|
                        0 <= j < i ==> Some(#[trigger] out@[j]@) == check_of_json(items@[j]),
                decreases items.len() - i,
            {
                match decode_check(&items[i]) {
                    Some(c) => out.push(c),
                    None => {
                        assert(check_of_json(items@[i as int]) is None);
                        assert(!(forall|j: int| 0 <= j < items@.len() ==> #[trigger] check_of_json(items@[j]) is Some));
                        assert(checks_of_json(deref_opt(v)) is None);
                        return None;
                    },
                }
                i = i + 1;
            }
            assert(checks_view(out@) =~= Seq::new(
                items@.len(),
                |i: int| check_of_json(items@[i])->0,
            ));
            Some(out)
        },
        _ => None,
    }
}

/// Reads a test.
pub fn decode_test(v: &JsonValue) -> (r: Option<TestReport>)
    ensures
        opt_test(r) == test_of_json(*v),
{
    match v {
        JsonValue::Object(fs) => {
            let success = as_bool(get_field(fs, "success"));
            let path = decode_strings(get_field(fs, "path"));
            let location = as_str(get_field(fs, "location"));
            let checks = decode_checks(get_field(fs, "checks"));
            match (success, path, location, checks) {
                (Some(success), Some(path), Some(location), Some(checks)) => Some(
                    TestReport { success, path, location, checks },
                ),
                _ => None,
            }
        },
        _ => None,
    }
}

/// Reads the payload of an evaluation.
pub fn decode_tests(v: &JsonValue) -> (r: Option<Vec<TestReport>>)
    ensures
        match r {
            Some(x) => tests_of_json(*v) == Some(tests_view(x@)),
            None => tests_of_json(*v) is None,
        },
{
    match v {
        JsonValue::Array(items) => {
            let mut out: Vec<TestReport> = Vec::new();
            let mut i: usize = 0;
            while i < items.len()
                invariant
                    i <= items.len(),
                    out@.len() == i,
                    *v == JsonValue::Array(*items),
                    forall|j: int| 0 <= j < i ==> #[trigger] test_of_json(items@[j]) is Some,
                    forall|j: int|
                        0 <= j < i ==> Some(#[trigger] out@[j]@) == test_of_json(items@[j]),
                decreases items.len() - i,
            {
                match decode_test(&items[i]) {
                    Some(t) => out.push(t),
                    None => {
                        assert(test_of_json(items@[i as int]) is None);
                        assert(!(forall|j: int| 0 <= j < items@.len() ==> #[trigger] test_of_json(items@[j]) is Some));
                        assert(tests_of_json(*v) is None);
                        return None;
                    },
                }
                i = i + 1;
            }
            assert(tests_view(out@) =~= Seq::new(
                items@.len(),
                |i: int| test_of_json(items@[i])->0,
            ));
            Some(out)
        },
        _ => None,
    }
}

/// The member names of the records, told apart by length or first letter.
proof fn lemma_keys_differ()
    ensures
        "name"@.len() == 4,
        "success"@.len() == 7,
        "failure"@.len() == 7,
        "location"@.len() == 8,
        "path"@.len() == 4,
        "checks"@.len() == 6,
        "status"@.len() == 6,
        "tests"@.len() == 5,
        "file"@.len() == 4,
        "elapsed"@.len() == 7,
        "error"@.len() == 5,
        "timeout"@.len() == 7,
        "success"@[0] == 's',
        "failure"@[0] == 'f',
        "tests"@[0] == 't',
        "error"@[0] == 'e',
        "elapsed"@[0] == 'e',
        "timeout"@[0] == 't',
        "completed"@.len() == 9,
        "errored"@.len() == 7,
        "timed_out"@.len() == 9,
        "completed"@[0] == 'c',
        "timed_out"@[0] == 't',
{
    reveal_strlit("completed");
    reveal_strlit("errored");
    reveal_strlit("timed_out");
    reveal_strlit("name");
    reveal_strlit("success");
    reveal_strlit("failure");
    reveal_strlit("location");
    reveal_strlit("path");
    reveal_strlit("checks");
    reveal_strlit("status");
    reveal_strlit("tests");
    reveal_strlit("file");
    reveal_strlit("elapsed");
    reveal_strlit("error");
    reveal_strlit("timeout");
}

fn member(key: &str, v: JsonValue) -> (r: (String, JsonValue))
    ensures
        r.0@ == key@,
        r.1 == v,
{
    (key.to_owned(), v)
}

/// Writes a check; `failure` is left out when there is none.
pub fn encode_check(c: &CheckReport) -> (r: JsonValue)
    ensures
        check_json_is(r, c@),
        check_of_json(r) == Some(c@),
{
    let mut fs: Vec<(String, JsonValue)> = Vec::new();
    fs.push(member("name", JsonValue::Str(c.name.clone())));
    fs.push(member("success", JsonValue::Bool(c.success)));
    match &c.failure {
        Some(f) => fs.push(member("failure", JsonValue::Str(f.clone()))),
        None => {},
    }
    fs.push(member("location", JsonValue::Str(c.location.clone())));
    proof {
        reveal_strlit("name");
        reveal_strlit("success");
        reveal_strlit("failure");
        reveal_strlit("location");
        let s = fs@;
        lemma_keys_differ();
        lemma_field_at(s, "name"@, 0);
        lemma_field_at(s, "success"@, 1);
        lemma_field_at(s, "location"@, s.len() - 1);
        if c.failure is Some {
            lemma_field_at(s, "failure"@, 2);
        } else {
            lemma_field_absent(s, "failure"@);
        }
    }
    JsonValue::Object(fs)
}

/// Writes a test.
pub fn encode_test(t: &TestReport) -> (r: JsonValue)
    ensures
        test_json_is(r, t@),
        test_of_json(r) == Some(t@),
{
    let mut path: Vec<JsonValue> = Vec::new();
    let mut i: usize = 0;
    while i < t.path.len()
        invariant
            i <= t.path.len(),
            path@.len() == i,
            forall|j: int| 0 <= j < i ==> (#[trigger] path@[j]) == JsonValue::Str(t.path@[j]),
        decreases t.path.len() - i,
    {
        path.push(JsonValue::Str(t.path[i].clone()));
        i = i + 1;
    }
    let mut checks: Vec<JsonValue> = Vec::new();
    let mut j: usize = 0;
    while j < t.checks.len()
        invariant
            j <= t.checks.len(),
            checks@.len() == j,
            forall|k: int| 0 <= k < j ==> check_of_json(#[trigger] checks@[k]) == Some(t.checks@[k]@),
            forall|k: int| 0 <= k < j ==> check_json_is(#[trigger] checks@[k], t.checks@[k]@),
        decreases t.checks.len() - j,
    {
        checks.push(encode_check(&t.checks[j]));
        j = j + 1;
    }
    let ghost path_items = path@;
    let ghost check_items = checks@;
    let mut fs: Vec<(String, JsonValue)> = Vec::new();
    fs.push(member("success", JsonValue::Bool(t.success)));
    fs.push(member("path", JsonValue::Array(path)));
    fs.push(member("location", JsonValue::Str(t.location.clone())));
    fs.push(member("checks", JsonValue::Array(checks)));
    proof {
        reveal_strlit("success");
        reveal_strlit("path");
        reveal_strlit("location");
        reveal_strlit("checks");
        let s = fs@;
        lemma_keys_differ();
        lemma_field_at(s, "success"@, 0);
        lemma_field_at(s, "path"@, 1);
        lemma_field_at(s, "location"@, 2);
        lemma_field_at(s, "checks"@, 3);
        assert(Seq::new(path_items.len(), |i: int| path_items[i]->Str_0@) =~= strings_view(t.path@));
        assert(Seq::new(check_items.len(), |i: int| check_of_json(check_items[i])->0) =~= checks_view(
            t.checks@,
        ));
    }
    JsonValue::Object(fs)
}

/// Writes the record of one file outcome, tagged by `status`.
pub fn encode_file_report(report: &TestFileReport) -> (r: JsonValue)
    ensures
        file_json_is(r, report@),
        file_of_json(r) == Some(report@),
{
    proof {
        reveal_strlit("status");
        reveal_strlit("tests");
        reveal_strlit("file");
        reveal_strlit("elapsed");
        reveal_strlit("error");
        reveal_strlit("timeout");
        reveal_strlit("completed");
        reveal_strlit("errored");
        reveal_strlit("timed_out");
        lemma_keys_differ();
    }
    let mut fs: Vec<(String, JsonValue)> = Vec::new();
    match report {
        TestFileReport::Completed(c) => {
            let mut tests: Vec<JsonValue> = Vec::new();
            let mut i: usize = 0;
            while i < c.tests.len()
                invariant
                    i <= c.tests.len(),
                    tests@.len() == i,
                    forall|k: int| 0 <= k < i ==> test_of_json(#[trigger] tests@[k]) == Some(c.tests@[k]@),
                    forall|k: int| 0 <= k < i ==> test_json_is(#[trigger] tests@[k], c.tests@[k]@),
                decreases c.tests.len() - i,
            {
                tests.push(encode_test(&c.tests[i]));
                i = i + 1;
            }
            let ghost items = tests@;
            fs.push(member("status", JsonValue::Str("completed".to_owned())));
            fs.push(member("tests", JsonValue::Array(tests)));
            fs.push(member("file", JsonValue::Str(c.file.clone())));
            fs.push(member("elapsed", JsonValue::Number(c.elapsed)));
            assert(Seq::new(items.len(), |i: int| test_of_json(items[i])->0) =~= tests_view(c.tests@));
            proof {
                let s = fs@;
                lemma_keys_differ();
                lemma_field_at(s, "status"@, 0);
                lemma_field_at(s, "tests"@, 1);
                lemma_field_at(s, "file"@, 2);
                lemma_field_at(s, "elapsed"@, 3);
            }
        },
        TestFileReport::Errored(e) => {
            fs.push(member("status", JsonValue::Str("errored".to_owned())));
            fs.push(member("file", JsonValue::Str(e.file.clone())));
            fs.push(member("error", JsonValue::Str(e.error.clone())));
            fs.push(member("elapsed", JsonValue::Number(e.elapsed)));
            proof {
                let s = fs@;
                lemma_keys_differ();
                lemma_field_at(s, "status"@, 0);
                lemma_field_at(s, "file"@, 1);
                lemma_field_at(s, "error"@, 2);
                lemma_field_at(s, "elapsed"@, 3);
            }
        },
        TestFileReport::TimedOut(t) => {
            fs.push(member("status", JsonValue::Str("timed_out".to_owned())));
            fs.push(member("file", JsonValue::Str(t.file.clone())));
            fs.push(member("timeout", JsonValue::Number(t.timeout as u128)));
            fs.push(member("elapsed", JsonValue::Number(t.elapsed)));
            proof {
                let s = fs@;
                lemma_keys_differ();
                lemma_field_at(s, "status"@, 0);
                lemma_field_at(s, "file"@, 1);
                lemma_field_at(s, "timeout"@, 2);
                lemma_field_at(s, "elapsed"@, 3);
            }
        },
    }
    JsonValue::Object(fs)
}

/// Reads the record of one file outcome.
pub fn decode_file_report(v: &JsonValue) -> (r: Option<TestFileReport>)
    ensures
        opt_file(r) == file_of_json(*v),
{
    proof {
        lemma_keys_differ();
    }
    match v {
        JsonValue::Object(fs) => {
            let status = as_str(get_field(fs, "status"));
            let file = as_str(get_field(fs, "file"));
            let elapsed = as_number(get_field(fs, "elapsed"));
            match (status, file, elapsed) {
                (Some(status), Some(file), Some(elapsed)) => {
                    if crate::text::str_eq(status.as_str(), "completed") {
                        match get_field(fs, "tests") {
                            Some(t) => match decode_tests(t) {
                                Some(tests) => Some(
                                    TestFileReport::Completed(
                                        TestFileCompletedReport { tests, file, elapsed },
                                    ),
                                ),
                                None => None,
                            },
                            None => None,
                        }
                    } else if crate::text::str_eq(status.as_str(), "errored") {
                        match as_str(get_field(fs, "error")) {
                            Some(error) => Some(
                                TestFileReport::Errored(TestFileErroredReport { file, error, elapsed }),
                            ),
                            None => None,
                        }
                    } else if crate::text::str_eq(status.as_str(), "timed_out") {
                        match as_number(get_field(fs, "timeout")) {
                            Some(t) => if t <= u64::MAX as u128 {
                                Some(
                                    TestFileReport::TimedOut(
                                        TestFileTimedOutReport { file, timeout: t as u64, elapsed },
                                    ),
                                )
                            } else {
                                None
                            },
                            None => None,
                        }
                    } else {
                        None
                    }
                },
                _ => None,
            }
        },
        _ => None,
    }
}

/// What the record in `bytes` describes, when they hold one.
pub open spec fn record_of_bytes(bytes: Seq<u8>) -> Option<FileModel> {
    match json_of_bytes(bytes) {
        Some(v) => file_of_json(v),
        None => None,
    }
}

/// Reads one line of the machine-readable report back into the file
/// outcome it describes.
pub fn read_file_record(bytes: &[u8]) -> (r: Option<TestFileReport>)
    ensures
        opt_file(r) == record_of_bytes(bytes@),
{
    match parse_json(bytes) {
        Ok(v) => decode_file_report(&v),
        Err(_) => None,
    }
}

} // verus!

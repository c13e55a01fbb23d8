//! The call-search tool: argument validation, truncation and the result.

use vstd::prelude::*;

use crate::error::GongError;
use crate::query::{calls_request, content_for, items_of, CallsRequest};
use crate::shape::{call_summary_matches, summarize_call, CallSummary};
use crate::text::same_text;
use crate::transcript::copy_text;
use crate::upstream::{CallPage, CallRecord};

verus! {

/// An element of an array argument.
#[derive(Clone, Debug, PartialEq, Eq)]
pub enum ArgItem {
    Text(String),
    Other,
}

/// A tool argument value, as far as validation reads it.
#[derive(Clone, Debug, PartialEq, Eq)]
pub enum ArgValue {
    Null,
    Bool(bool),
    /// A number that is a non-negative integer within `u64`.
    UInt(u64),
    /// Any other number.
    Number,
    Text(String),
    List(Vec<ArgItem>),
    Object,
}

/// One key of the argument object.
#[derive(Clone, Debug, PartialEq, Eq)]
pub struct ArgEntry {
    pub key: String,
    pub value: ArgValue,
}

/// The validated search arguments, echoed back as the result's filters.
#[derive(Clone, Debug, PartialEq, Eq)]
pub struct SearchArgs {
    pub from_date_time: Option<String>,
    pub to_date_time: Option<String>,
    pub workspace_id: Option<String>,
    pub call_ids: Option<Vec<String>>,
    pub primary_user_ids: Option<Vec<String>>,
    pub cursor: Option<String>,
    /// The most calls to return from the page; absent means no limit.
    pub limit: Option<u64>,
    pub include_structure: bool,
}

/// The search tool's result.
#[derive(Debug, PartialEq)]
pub struct SearchResult {
    pub calls: Vec<CallSummary>,
    pub count: usize,
    pub total_available: usize,
    pub truncated: bool,
    pub next_cursor: Option<String>,
    pub has_more: bool,
    pub filters: SearchArgs,
}

/// The value of the first entry under `key`.
pub open spec fn arg_lookup(es: Seq<ArgEntry>, key: Seq<char>) -> Option<ArgValue>
    decreases es.len(),
{
    if es.len() == 0 {
        None
    } else if es[0].key@ == key {
        Some(es[0].value)
    } else {
        arg_lookup(es.drop_first(), key)
    }
}

pub open spec fn entries_of(args: Option<Vec<ArgEntry>>) -> Seq<ArgEntry> {
    match args {
        Some(v) => v@,
        None => Seq::empty(),
    }
}

/// Absent, null or text.
pub open spec fn text_ok(v: Option<ArgValue>) -> bool {
    match v {
        None => true,
        Some(ArgValue::Null) => true,
        Some(ArgValue::Text(_)) => true,
        _ => false,
    }
}

pub open spec fn text_value(v: Option<ArgValue>) -> Option<String> {
    match v {
        Some(ArgValue::Text(s)) => Some(s),
        _ => None,
    }
}

pub open spec fn all_text(items: Seq<ArgItem>) -> bool {
    forall|i: int| 0 <= i < items.len() ==> #[trigger] items[i] is Text
}

/// Absent, null or an array of texts.
pub open spec fn list_ok(v: Option<ArgValue>) -> bool {
    match v {
        None => true,
        Some(ArgValue::Null) => true,
        Some(ArgValue::List(items)) => all_text(items@),
        _ => false,
    }
}

pub open spec fn list_value(v: Option<ArgValue>) -> Option<Seq<String>> {
    match v {
        Some(ArgValue::List(items)) => Some(items@.map_values(|it: ArgItem| it->Text_0)),
        _ => None,
    }
}

/// Absent, null or a non-negative integer.
pub open spec fn limit_ok(v: Option<ArgValue>) -> bool {
    match v {
        None => true,
        Some(ArgValue::Null) => true,
        Some(ArgValue::UInt(_)) => true,
        _ => false,
    }
}

pub open spec fn limit_value(v: Option<ArgValue>) -> Option<u64> {
    match v {
        Some(ArgValue::UInt(n)) => Some(n),
        _ => None,
    }
}

/// Absent, null or a boolean.
pub open spec fn flag_ok(v: Option<ArgValue>) -> bool {
    match v {
        None => true,
        Some(ArgValue::Null) => true,
        Some(ArgValue::Bool(_)) => true,
        _ => false,
    }
}

pub open spec fn flag_value(v: Option<ArgValue>) -> bool {
    match v {
        Some(ArgValue::Bool(b)) => b,
        _ => false,
    }
}

/// The first recognized key, in schema order, whose value has the wrong type.
pub open spec fn first_invalid_key(es: Seq<ArgEntry>) -> Option<Seq<char>> {
    if !text_ok(arg_lookup(es, "from_date_time"@)) {
        Some("from_date_time"@)
    } else if !text_ok(arg_lookup(es, "to_date_time"@)) {
        Some("to_date_time"@)
    } else if !text_ok(arg_lookup(es, "workspace_id"@)) {
        Some("workspace_id"@)
    } else if !list_ok(arg_lookup(es, "call_ids"@)) {
        Some("call_ids"@)
    } else if !list_ok(arg_lookup(es, "primary_user_ids"@)) {
        Some("primary_user_ids"@)
    } else if !text_ok(arg_lookup(es, "cursor"@)) {
        Some("cursor"@)
    } else if !limit_ok(arg_lookup(es, "limit"@)) {
        Some("limit"@)
    } else if !flag_ok(arg_lookup(es, "include_structure"@)) {
        Some("include_structure"@)
    } else {
        None
    }
}

/// The arguments that a well-typed argument object gives.
pub open spec fn args_match(es: Seq<ArgEntry>, a: SearchArgs) -> bool {
    &&& a.from_date_time == text_value(arg_lookup(es, "from_date_time"@))
    &&& a.to_date_time == text_value(arg_lookup(es, "to_date_time"@))
    &&& a.workspace_id == text_value(arg_lookup(es, "workspace_id"@))
    &&& items_of(a.call_ids) == list_value(arg_lookup(es, "call_ids"@))
    &&& items_of(a.primary_user_ids) == list_value(arg_lookup(es, "primary_user_ids"@))
    &&& a.cursor == text_value(arg_lookup(es, "cursor"@))
    &&& a.limit == limit_value(arg_lookup(es, "limit"@))
    &&& a.include_structure == flag_value(arg_lookup(es, "include_structure"@))
}

/// The value under `key`.
fn lookup<'a>(es: &'a Vec<ArgEntry>, key: &str) -> (r: Option<&'a ArgValue>)
    ensures
        match r {
            Some(v) => arg_lookup(es@, key@) == Some(*v),
            None => arg_lookup(es@, key@) is None,
        },
{
    let n = es.len();
    let mut i: usize = 0;
    assert(es@.subrange(0, n as int) =~= es@);
    while i < n
        invariant
            n == es@.len(),
            i <= n,
            arg_lookup(es@, key@) == arg_lookup(es@.subrange(i as int, n as int), key@),
        decreases n - i,
    {
        proof {
            assert(es@.subrange(i as int, n as int).drop_first() =~= es@.subrange(
                i + 1,
                n as int,
            ));
        }
        if same_text(es[i].key.as_str(), key) {
            return Some(&es[i].value);
        }
        i = i + 1;
    }
    None
}

fn text_arg(v: Option<&ArgValue>) -> (r: Result<Option<String>, ()>)
    ensures
        match v {
            Some(x) => r is Ok <==> text_ok(Some(*x)),
            None => r is Ok,
        },
        r matches Ok(t) ==> t == text_value(
            match v {
                Some(x) => Some(*x),
                None => None,
            },
        ),
{
    match v {
        None => Ok(None),
        Some(ArgValue::Null) => Ok(None),
        Some(ArgValue::Text(s)) => Ok(Some(s.clone())),
        Some(_) => Err(()),
    }
}

fn list_arg(v: Option<&ArgValue>) -> (r: Result<Option<Vec<String>>, ()>)
    ensures
        match v {
            Some(x) => r is Ok <==> list_ok(Some(*x)),
            None => r is Ok,
        },
        r matches Ok(t) ==> items_of(t) == list_value(
            match v {
                Some(x) => Some(*x),
                None => None,
            },
        ),
{
    match v {
        None => Ok(None),
        Some(ArgValue::Null) => Ok(None),
        Some(ArgValue::List(items)) => {
            let n = items.len();
            let mut out: Vec<String> = Vec::new();
            let mut i: usize = 0;
            while i < n
                invariant
                    n == items@.len(),
                    v matches Some(x) && *x == ArgValue::List(*items),
                    i <= n,
                    all_text(items@.take(i as int)),
                    out@ == items@.take(i as int).map_values(|it: ArgItem| it->Text_0),
                decreases n - i,
            {
                match &items[i] {
                    ArgItem::Text(s) => {
                        out.push(s.clone());
                        proof {
                            assert(items@.take(i + 1).map_values(|it: ArgItem| it->Text_0)
                                =~= out@);
                            assert forall|j: int| 0 <= j < i + 1 implies #[trigger] items@.take(
                                i + 1,
                            )[j] is Text by {
                                if j < i {
                                    assert(items@.take(i + 1)[j] == items@.take(i as int)[j]);
                                }
                            }
                        }
                    },
                    ArgItem::Other => {
                        assert(!(items@[i as int] is Text));
                        assert(!all_text(items@));
                        return Err(());
                    },
                }
                i = i + 1;
            }
            assert(items@.take(n as int) =~= items@);
            Ok(Some(out))
        },
        Some(_) => Err(()),
    }
}

/// Checks the type of each recognized argument and applies the defaults.
/// Unrecognized keys are left to the protocol's schema.
pub fn validate_search_args(args: &Option<Vec<ArgEntry>>) -> (r: Result<SearchArgs, GongError>)
    ensures
        match first_invalid_key(entries_of(*args)) {
            Some(k) => r matches Err(GongError::InvalidArgument { key }) && key@ == k,
            None => r matches Ok(a) && args_match(entries_of(*args), a),
        },
{
    let empty: Vec<ArgEntry> = Vec::new();
    let es: &Vec<ArgEntry> = match args {
        Some(v) => v,
        None => &empty,
    };
    proof {
        reveal_strlit("from_date_time");
        reveal_strlit("to_date_time");
        reveal_strlit("workspace_id");
        reveal_strlit("call_ids");
        reveal_strlit("primary_user_ids");
        reveal_strlit("cursor");
        reveal_strlit("limit");
        reveal_strlit("include_structure");
    }
    let from_date_time = match text_arg(lookup(es, "from_date_time")) {
        Ok(t) => t,
        Err(_) => return Err(GongError::InvalidArgument { key: String::from_str("from_date_time") }),
    };
    let to_date_time = match text_arg(lookup(es, "to_date_time")) {
        Ok(t) => t,
        Err(_) => return Err(GongError::InvalidArgument { key: String::from_str("to_date_time") }),
    };
    let workspace_id = match text_arg(lookup(es, "workspace_id")) {
        Ok(t) => t,
        Err(_) => return Err(GongError::InvalidArgument { key: String::from_str("workspace_id") }),
    };
    let call_ids = match list_arg(lookup(es, "call_ids")) {
        Ok(t) => t,
        Err(_) => return Err(GongError::InvalidArgument { key: String::from_str("call_ids") }),
    };
    let primary_user_ids = match list_arg(lookup(es, "primary_user_ids")) {
        Ok(t) => t,
        Err(_) => return Err(
            GongError::InvalidArgument { key: String::from_str("primary_user_ids") },
        ),
    };
    let cursor = match text_arg(lookup(es, "cursor")) {
        Ok(t) => t,
        Err(_) => return Err(GongError::InvalidArgument { key: String::from_str("cursor") }),
    };
    let limit = match lookup(es, "limit") {
        None => None,
        Some(ArgValue::Null) => None,
        Some(ArgValue::UInt(n)) => Some(*n),
        Some(_) => return Err(GongError::InvalidArgument { key: String::from_str("limit") }),
    };
    let include_structure = match lookup(es, "include_structure") {
        None => false,
        Some(ArgValue::Null) => false,
        Some(ArgValue::Bool(b)) => *b,
        Some(_) => return Err(
            GongError::InvalidArgument { key: String::from_str("include_structure") },
        ),
    };
    Ok(
        SearchArgs {
            from_date_time,
            to_date_time,
            workspace_id,
            call_ids,
            primary_user_ids,
            cursor,
            limit,
            include_structure,
        },
    )
}

/// How many of `n` calls are kept under `limit`: `min(n, limit)`, or `n`
/// without a limit.
pub open spec fn kept_count(n: nat, limit: Option<u64>) -> nat {
    match limit {
        Some(l) => if (l as nat) < n {
            l as nat
        } else {
            n
        },
        None => n,
    }
}

/// A limit was given and is below `n`.
pub open spec fn is_truncated(n: nat, limit: Option<u64>) -> bool {
    limit matches Some(l) && (l as nat) < n
}

/// Keeps the first `limit` items, in their order, and says whether any were
/// dropped.
pub fn apply_limit<T>(items: Vec<T>, limit: Option<u64>) -> (r: (Vec<T>, bool))
    ensures
        r.0@ == items@.take(kept_count(items@.len(), limit) as int),
        r.0@.len() == kept_count(items@.len(), limit),
        r.1 == is_truncated(items@.len(), limit),
{
    let mut items = items;
    match limit {
        Some(l) => {
            if l < items.len() as u64 {
                items.truncate(l as usize);
                (items, true)
            } else {
                proof {
                    assert(items@.take(items@.len() as int) =~= items@);
                }
                (items, false)
            }
        },
        None => {
            proof {
                assert(items@.take(items@.len() as int) =~= items@);
            }
            (items, false)
        },
    }
}

pub open spec fn records_of(page: CallPage) -> Seq<CallRecord> {
    match page.calls {
        Some(v) => v@,
        None => Seq::empty(),
    }
}

/// The search result that a page of calls gives under the arguments.
pub open spec fn search_result_matches(args: SearchArgs, page: CallPage, r: SearchResult) -> bool {
    let all = records_of(page);
    &&& r.total_available == all.len()
    &&& r.calls@.len() == kept_count(all.len(), args.limit)
    &&& forall|i: int|
        0 <= i < r.calls@.len() ==> call_summary_matches(all[i], #[trigger] r.calls@[i])
    &&& r.count == r.calls@.len()
    &&& r.truncated == is_truncated(all.len(), args.limit)
    &&& r.next_cursor == page.cursor
    &&& r.has_more == (page.cursor is Some)
    &&& r.filters == args
}

/// Shapes a page of calls for the search tool: summaries of the first
/// `limit` calls in upstream order, with the page's continuation.
pub fn search_result(args: SearchArgs, page: CallPage) -> (r: SearchResult)
    ensures
        search_result_matches(args, page, r),
{
    let records: Vec<CallRecord> = match page.calls {
        Some(v) => v,
        None => Vec::new(),
    };
    let total_available = records.len();
    let ghost all = records@;
    let (kept, truncated) = apply_limit(records, args.limit);
    let ghost kept_seq = kept@;
    let mut rest = kept;
    let mut calls: Vec<CallSummary> = Vec::new();
    while rest.len() > 0
        invariant
            kept_seq == all.take(kept_seq.len() as int),
            kept_seq.len() <= all.len(),
            calls@.len() + rest@.len() == kept_seq.len(),
            rest@ == kept_seq.skip(calls@.len() as int),
            forall|i: int|
                0 <= i < calls@.len() ==> call_summary_matches(
                    kept_seq[i],
                    #[trigger] calls@[i],
                ),
        decreases rest@.len(),
    {
        let rec = rest.remove(0);
        proof {
            assert(rec == kept_seq[calls@.len() as int]);
            assert(rest@ =~= kept_seq.skip(calls@.len() as int + 1));
        }
        calls.push(summarize_call(rec));
    }
    proof {
        assert forall|i: int| 0 <= i < calls@.len() implies call_summary_matches(
            all[i],
            #[trigger] calls@[i],
        ) by {
            assert(kept_seq[i] == all[i]);
        }
    }
    let has_more = page.cursor.is_some();
    let count = calls.len();
    SearchResult {
        calls,
        count,
        total_available,
        truncated,
        next_cursor: page.cursor,
        has_more,
        filters: args,
    }
}

} // verus!

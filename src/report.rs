//! Presentation of a query result: a structured record of named fields, read
//! back the same way, and a human-readable text.
use vstd::prelude::*;
use crate::query::{AllowReason, DenyReason, QueryResult, Verdict};

verus! {

/// Field names and values of a record as character sequences.
pub open spec fn fields_view(v: Seq<(String, String)>) -> Seq<(Seq<char>, Seq<char>)> {
    v.map_values(|f: (String, String)| (f.0@, f.1@))
}

/// The name of an allow reason in a record.
pub open spec fn allow_name(r: AllowReason) -> Seq<char> {
    match r {
        AllowReason::ExplicitGrant => "explicit_grant"@,
        AllowReason::WithinWorkdir => "within_workdir"@,
        AllowReason::SystemPath => "system_path"@,
        AllowReason::NetworkAllowedByDefault => "network_allowed_by_default"@,
    }
}

/// The name of a deny reason in a record.
pub open spec fn deny_name(r: DenyReason) -> Seq<char> {
    match r {
        DenyReason::SensitivePath => "sensitive_path"@,
        DenyReason::NotInAllowedPaths => "not_in_allowed_paths"@,
        DenyReason::NetworkBlocked => "network_blocked"@,
    }
}

/// The allow reason a record name stands for.
pub open spec fn parse_allow(s: Seq<char>) -> Option<AllowReason> {
    if s == "explicit_grant"@ {
        Some(AllowReason::ExplicitGrant)
    } else if s == "within_workdir"@ {
        Some(AllowReason::WithinWorkdir)
    } else if s == "system_path"@ {
        Some(AllowReason::SystemPath)
    } else if s == "network_allowed_by_default"@ {
        Some(AllowReason::NetworkAllowedByDefault)
    } else {
        None
    }
}

/// The deny reason a record name stands for.
pub open spec fn parse_deny(s: Seq<char>) -> Option<DenyReason> {
    if s == "sensitive_path"@ {
        Some(DenyReason::SensitivePath)
    } else if s == "not_in_allowed_paths"@ {
        Some(DenyReason::NotInAllowedPaths)
    } else if s == "network_blocked"@ {
        Some(DenyReason::NetworkBlocked)
    } else {
        None
    }
}

/// The record of a decision holds a `status` tag (`allowed`, `denied`,
/// `not_sandboxed`) followed by the fields of that variant, reasons in
/// lower case with underscores; `category` appears only when there is one.
pub open spec fn encode(v: Verdict) -> Seq<(Seq<char>, Seq<char>)> {
    match v {
        Verdict::Allowed { reason, granted_by } => seq![
            ("status"@, "allowed"@),
            ("reason"@, allow_name(reason)),
            ("granted_by"@, granted_by),
        ],
        Verdict::Denied { reason, category, suggestion } => seq![
            ("status"@, "denied"@),
            ("reason"@, deny_name(reason)),
        ] + match category {
            Some(c) => seq![("category"@, c)],
            None => Seq::empty(),
        } + seq![("suggestion"@, suggestion)],
        Verdict::NotSandboxed { message } => seq![
            ("status"@, "not_sandboxed"@),
            ("message"@, message),
        ],
    }
}

/// The value of the first field named `key`.
pub open spec fn lookup(fields: Seq<(Seq<char>, Seq<char>)>, key: Seq<char>) -> Option<Seq<char>>
    decreases fields.len(),
{
    if fields.len() == 0 {
        None
    } else if fields[0].0 == key {
        Some(fields[0].1)
    } else {
        lookup(fields.drop_first(), key)
    }
}

/// The verdict a record describes, if it describes one: the `status` tag picks
/// the variant, whose required fields must be present and whose reason must be
/// a known name. Other fields are ignored.
pub open spec fn decode(fields: Seq<(Seq<char>, Seq<char>)>) -> Option<Verdict> {
    let status = lookup(fields, "status"@);
    let reason = lookup(fields, "reason"@);
    if status == Some("allowed"@) && reason is Some && parse_allow(reason->0) is Some
        && lookup(fields, "granted_by"@) is Some {
        Some(
            Verdict::Allowed {
                reason: parse_allow(reason->0)->0,
                granted_by: lookup(fields, "granted_by"@)->0,
            },
        )
    } else if status == Some("denied"@) && reason is Some && parse_deny(reason->0) is Some
        && lookup(fields, "suggestion"@) is Some {
        Some(
            Verdict::Denied {
                reason: parse_deny(reason->0)->0,
                category: lookup(fields, "category"@),
                suggestion: lookup(fields, "suggestion"@)->0,
            },
        )
    } else if status == Some("not_sandboxed"@) && lookup(fields, "message"@) is Some {
        Some(Verdict::NotSandboxed { message: lookup(fields, "message"@)->0 })
    } else {
        None
    }
}

/// Reading back the record of any verdict gives that verdict.
pub proof fn lemma_structured_round_trip(v: Verdict)
    ensures
        decode(encode(v)) == Some(v),
{
    reveal_strlit("status");
    reveal_strlit("reason");
    reveal_strlit("granted_by");
    reveal_strlit("category");
    reveal_strlit("suggestion");
    reveal_strlit("message");
    reveal_strlit("allowed");
    reveal_strlit("denied");
    reveal_strlit("not_sandboxed");
    reveal_strlit("explicit_grant");
    reveal_strlit("within_workdir");
    reveal_strlit("system_path");
    reveal_strlit("network_allowed_by_default");
    reveal_strlit("sensitive_path");
    reveal_strlit("not_in_allowed_paths");
    reveal_strlit("network_blocked");
    reveal_with_fuel(lookup, 5);
    assert("status"@[0] != "reason"@[0]);
    assert("status"@[0] != "granted_by"@[0]);
    assert("status"@[0] != "category"@[0]);
    assert("status"@.len() != "suggestion"@.len());
    assert("status"@[0] != "message"@[0]);
    assert("reason"@[0] != "granted_by"@[0]);
    assert("reason"@[0] != "category"@[0]);
    assert("reason"@[0] != "suggestion"@[0]);
    assert("category"@[0] != "suggestion"@[0]);
    assert("explicit_grant"@[0] != "within_workdir"@[0]);
    assert("explicit_grant"@[0] != "system_path"@[0]);
    assert("explicit_grant"@[0] != "network_allowed_by_default"@[0]);
    assert("within_workdir"@[0] != "system_path"@[0]);
    assert("within_workdir"@[0] != "network_allowed_by_default"@[0]);
    assert("system_path"@[0] != "network_allowed_by_default"@[0]);
    assert("sensitive_path"@[0] != "not_in_allowed_paths"@[0]);
    assert("sensitive_path"@[0] != "network_blocked"@[0]);
    assert("not_in_allowed_paths"@[1] != "network_blocked"@[1]);
    let f = encode(v);
    match v {
        Verdict::Allowed { reason, granted_by } => {
            assert(f.drop_first() =~= seq![("reason"@, allow_name(reason)), ("granted_by"@, granted_by)]);
            assert(f.drop_first().drop_first() =~= seq![("granted_by"@, granted_by)]);
            assert(parse_allow(allow_name(reason)) == Some(reason));
        },
        Verdict::Denied { reason, category, suggestion } => {
            assert(parse_deny(deny_name(reason)) == Some(reason));
            match category {
                Some(c) => {
                    assert(f.drop_first() =~= seq![
                        ("reason"@, deny_name(reason)),
                        ("category"@, c),
                        ("suggestion"@, suggestion),
                    ]);
                    assert(f.drop_first().drop_first() =~= seq![("category"@, c), ("suggestion"@, suggestion)]);
                    assert(f.drop_first().drop_first().drop_first() =~= seq![("suggestion"@, suggestion)]);
                },
                None => {
                    assert(f.drop_first() =~= seq![("reason"@, deny_name(reason)), ("suggestion"@, suggestion)]);
                    assert(f.drop_first().drop_first() =~= seq![("suggestion"@, suggestion)]);
                    assert(f.drop_first().drop_first().drop_first() =~= Seq::<(Seq<char>, Seq<char>)>::empty());
                },
            }
        },
        Verdict::NotSandboxed { message } => {
            assert(f.drop_first() =~= seq![("message"@, message)]);
        },
    }
}

fn allow_reason_name(r: AllowReason) -> (s: &'static str)
    ensures
        s@ == allow_name(r),
{
    match r {
        AllowReason::ExplicitGrant => "explicit_grant",
        AllowReason::WithinWorkdir => "within_workdir",
        AllowReason::SystemPath => "system_path",
        AllowReason::NetworkAllowedByDefault => "network_allowed_by_default",
    }
}

fn deny_reason_name(r: DenyReason) -> (s: &'static str)
    ensures
        s@ == deny_name(r),
{
    match r {
        DenyReason::SensitivePath => "sensitive_path",
        DenyReason::NotInAllowedPaths => "not_in_allowed_paths",
        DenyReason::NetworkBlocked => "network_blocked",
    }
}

fn is_text(s: &String, t: &str) -> (r: bool)
    ensures
        r == (s@ == t@),
{
    *s == String::from_str(t)
}

fn parse_allow_reason(s: &String) -> (r: Option<AllowReason>)
    ensures
        r == parse_allow(s@),
{
    if is_text(s, "explicit_grant") {
        Some(AllowReason::ExplicitGrant)
    } else if is_text(s, "within_workdir") {
        Some(AllowReason::WithinWorkdir)
    } else if is_text(s, "system_path") {
        Some(AllowReason::SystemPath)
    } else if is_text(s, "network_allowed_by_default") {
        Some(AllowReason::NetworkAllowedByDefault)
    } else {
        None
    }
}

fn parse_deny_reason(s: &String) -> (r: Option<DenyReason>)
    ensures
        r == parse_deny(s@),
{
    if is_text(s, "sensitive_path") {
        Some(DenyReason::SensitivePath)
    } else if is_text(s, "not_in_allowed_paths") {
        Some(DenyReason::NotInAllowedPaths)
    } else if is_text(s, "network_blocked") {
        Some(DenyReason::NetworkBlocked)
    } else {
        None
    }
}

/// An optional string as an optional character sequence.
pub open spec fn opt_seq(o: Option<String>) -> Option<Seq<char>> {
    match o {
        Some(s) => Some(s@),
        None => None,
    }
}

/// The value of the first field named `key`.
fn field_value(fields: &Vec<(String, String)>, key: &str) -> (r: Option<String>)
    ensures
        opt_seq(r) == lookup(fields_view(fields@), key@),
{
    let ghost fv = fields_view(fields@);
    let mut i: usize = 0;
    assert(fv.subrange(0, fv.len() as int) =~= fv);
    while i < fields.len()
        invariant
            fv == fields_view(fields@),
            i <= fields@.len(),
            lookup(fv, key@) == lookup(fv.subrange(i as int, fv.len() as int), key@),
        decreases fields@.len() - i,
    {
        let ghost rest = fv.subrange(i as int, fv.len() as int);
        assert(rest[0] == (fields@[i as int].0@, fields@[i as int].1@));
        assert(rest.drop_first() =~= fv.subrange(i + 1, fv.len() as int));
        if is_text(&fields[i].0, key) {
            return Some(fields[i].1.clone());
        }
        i = i + 1;
    }
    None
}

fn field_push(fields: &mut Vec<(String, String)>, name: &str, value: String)
    ensures
        fields_view(final(fields)@) == fields_view(old(fields)@).push((name@, value@)),
{
    let ghost before = fields@;
    fields.push((String::from_str(name), value));
    assert(fields_view(fields@) =~= fields_view(before).push((name@, value@)));
}

impl QueryResult {
    /// The structured record of this result: `status` first, then the
    /// fields of its variant.
    pub fn to_fields(&self) -> (r: Vec<(String, String)>)
        ensures
            fields_view(r@) == encode(self@),
    {
        let mut fields: Vec<(String, String)> = Vec::new();
        assert(fields_view(fields@) =~= Seq::<(Seq<char>, Seq<char>)>::empty());
        match self {
            QueryResult::Allowed { reason, granted_by } => {
                field_push(&mut fields, "status", String::from_str("allowed"));
                field_push(&mut fields, "reason", String::from_str(allow_reason_name(*reason)));
                field_push(&mut fields, "granted_by", granted_by.clone());
            },
            QueryResult::Denied { reason, category, suggestion } => {
                field_push(&mut fields, "status", String::from_str("denied"));
                field_push(&mut fields, "reason", String::from_str(deny_reason_name(*reason)));
                if let Some(c) = category {
                    field_push(&mut fields, "category", c.clone());
                }
                field_push(&mut fields, "suggestion", suggestion.clone());
            },
            QueryResult::NotSandboxed { message } => {
                field_push(&mut fields, "status", String::from_str("not_sandboxed"));
                field_push(&mut fields, "message", message.clone());
            },
        }
        assert(fields_view(fields@) =~= encode(self@));
        fields
    }

    /// The result a structured record describes, or `None` when the record
    /// has no known `status`, lacks a field its variant needs or names an
    /// unknown reason.
    pub fn from_fields(fields: &Vec<(String, String)>) -> (r: Option<QueryResult>)
        ensures
            match r {
                Some(q) => decode(fields_view(fields@)) == Some(q@),
                None => decode(fields_view(fields@)) is None,
            },
    {
        let status = match field_value(fields, "status") {
            Some(s) => s,
            None => return None,
        };
        let reason = field_value(fields, "reason");
        proof {
            reveal_strlit("allowed");
            reveal_strlit("denied");
            reveal_strlit("not_sandboxed");
            assert("allowed"@.len() != "denied"@.len());
            assert("allowed"@.len() != "not_sandboxed"@.len());
            assert("denied"@.len() != "not_sandboxed"@.len());
        }
        if is_text(&status, "allowed") {
            let parsed = match &reason {
                Some(r) => parse_allow_reason(r),
                None => None,
            };
            match parsed {
                Some(reason) => match field_value(fields, "granted_by") {
                    Some(granted_by) => Some(QueryResult::Allowed { reason, granted_by }),
                    None => None,
                },
                None => None,
            }
        } else if is_text(&status, "denied") {
            let parsed = match &reason {
                Some(r) => parse_deny_reason(r),
                None => None,
            };
            match parsed {
                Some(reason) => match field_value(fields, "suggestion") {
                    Some(suggestion) => {
                        let category = field_value(fields, "category");
                        Some(QueryResult::Denied { reason, category, suggestion })
                    },
                    None => None,
                },
                None => None,
            }
        } else if is_text(&status, "not_sandboxed") {
            match field_value(fields, "message") {
                Some(message) => Some(QueryResult::NotSandboxed { message }),
                None => None,
            }
        } else {
            None
        }
    }
}

/// The name of an allow reason in text.
pub open spec fn allow_label(r: AllowReason) -> Seq<char> {
    match r {
        AllowReason::ExplicitGrant => "ExplicitGrant"@,
        AllowReason::WithinWorkdir => "WithinWorkdir"@,
        AllowReason::SystemPath => "SystemPath"@,
        AllowReason::NetworkAllowedByDefault => "NetworkAllowedByDefault"@,
    }
}

/// The name of a deny reason in text.
pub open spec fn deny_label(r: DenyReason) -> Seq<char> {
    match r {
        DenyReason::SensitivePath => "SensitivePath"@,
        DenyReason::NotInAllowedPaths => "NotInAllowedPaths"@,
        DenyReason::NetworkBlocked => "NetworkBlocked"@,
    }
}

/// The text of a decision is a header line (`ALLOWED`, `DENIED`, `NOT SANDBOXED`)
/// and indented lines for its fields, each line ending in a newline.
pub open spec fn text_of(v: Verdict) -> Seq<char> {
    match v {
        Verdict::Allowed { reason, granted_by } => "ALLOWED\n  Reason: "@ + allow_label(reason)
            + "\n  Granted by: "@ + granted_by + "\n"@,
        Verdict::Denied { reason, category, suggestion } => "DENIED\n  Reason: "@ + deny_label(
            reason,
        ) + "\n"@ + match category {
            Some(c) => "  Category: "@ + c + "\n"@,
            None => Seq::empty(),
        } + "  Suggestion: "@ + suggestion + "\n"@,
        Verdict::NotSandboxed { message } => "NOT SANDBOXED\n  "@ + message + "\n"@,
    }
}

fn allow_reason_label(r: AllowReason) -> (s: &'static str)
    ensures
        s@ == allow_label(r),
{
    match r {
        AllowReason::ExplicitGrant => "ExplicitGrant",
        AllowReason::WithinWorkdir => "WithinWorkdir",
        AllowReason::SystemPath => "SystemPath",
        AllowReason::NetworkAllowedByDefault => "NetworkAllowedByDefault",
    }
}

fn deny_reason_label(r: DenyReason) -> (s: &'static str)
    ensures
        s@ == deny_label(r),
{
    match r {
        DenyReason::SensitivePath => "SensitivePath",
        DenyReason::NotInAllowedPaths => "NotInAllowedPaths",
        DenyReason::NetworkBlocked => "NetworkBlocked",
    }
}

impl QueryResult {
    /// The human-readable form of this result, as `text_of` lays it out.
    pub fn render_text(&self) -> (r: String)
        ensures
            r@ == text_of(self@),
    {
        let mut out = String::new();
        match self {
            QueryResult::Allowed { reason, granted_by } => {
                out.append("ALLOWED\n  Reason: ");
                out.append(allow_reason_label(*reason));
                out.append("\n  Granted by: ");
                out.append(granted_by.as_str());
                out.append("\n");
            },
            QueryResult::Denied { reason, category, suggestion } => {
                out.append("DENIED\n  Reason: ");
                out.append(deny_reason_label(*reason));
                out.append("\n");
                if let Some(c) = category {
                    out.append("  Category: ");
                    out.append(c.as_str());
                    out.append("\n");
                }
                out.append("  Suggestion: ");
                out.append(suggestion.as_str());
                out.append("\n");
            },
            QueryResult::NotSandboxed { message } => {
                out.append("NOT SANDBOXED\n  ");
                out.append(message.as_str());
                out.append("\n");
            },
        }
        assert(out@ =~= text_of(self@));
        out
    }
}

} // verus!

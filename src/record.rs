use vstd::prelude::*;
use vstd::string::StringExecFns;

use crate::json::{decimal, json_string, push_decimal, push_json_string};

verus! {

/// The outcome of checking one URL to completion, retries included.
///
/// `action_status` holds the HTTP status code of a response, or the message of
/// the last failed attempt. `response_time_ms` is the duration of the final
/// attempt alone; `timestamp` is when the record was made, in seconds since
/// the Unix epoch.
#[derive(Debug)]
pub struct WebsiteStatus {
    pub url: String,
    pub action_status: Result<u16, String>,
    pub response_time_ms: u64,
    pub timestamp: u64,
}

/// The JSON value of a status: the bare code, or the quoted message.
pub open spec fn status_json(s: Result<u16, String>) -> Seq<char> {
    match s {
        Ok(code) => decimal(code as nat),
        Err(message) => json_string(message@),
    }
}

/// The JSON object of one record, its fields always in this order.
pub open spec fn record_json(r: WebsiteStatus) -> Seq<char> {
    "{\"url\": "@ + json_string(r.url@) + ", \"status\": "@ + status_json(r.action_status)
        + ", \"response_time_ms\": "@ + decimal(r.response_time_ms as nat) + ", \"timestamp\": "@
        + decimal(r.timestamp as nat) + "}"@
}

/// What stands before the record at position `i` of a report.
pub open spec fn separator(i: int) -> Seq<char> {
    if i == 0 {
        "\n"@
    } else {
        ",\n"@
    }
}

/// The records of a report, each on a line of its own, with commas between.
pub open spec fn report_items(rs: Seq<WebsiteStatus>) -> Seq<char>
    decreases rs.len(),
{
    if rs.len() == 0 {
        Seq::empty()
    } else {
        report_items(rs.drop_last()) + separator(rs.len() - 1) + record_json(rs.last())
    }
}

/// The report: a JSON array of the records, in the order given.
pub open spec fn report(rs: Seq<WebsiteStatus>) -> Seq<char> {
    "["@ + report_items(rs) + "\n]"@
}

/// The line that tells of one finished check:
/// `<url> - HTTP <code> in <N>ms` or `<url> - ERROR: <message> in <N>ms`.
pub open spec fn summary(r: WebsiteStatus) -> Seq<char> {
    r.url@ + " - "@ + match r.action_status {
        Ok(code) => "HTTP "@ + decimal(code as nat),
        Err(message) => "ERROR: "@ + message@,
    } + " in "@ + decimal(r.response_time_ms as nat) + "ms"@
}

impl WebsiteStatus {
    /// The line that tells of this finished check.
    pub fn summary_line(&self) -> (r: String)
        ensures
            r@ == summary(*self),
    {
        let mut out = String::new();
        out.append(self.url.as_str());
        out.append(" - ");
        match &self.action_status {
            Ok(code) => {
                out.append("HTTP ");
                push_decimal(&mut out, *code as u64);
            },
            Err(message) => {
                out.append("ERROR: ");
                out.append(message.as_str());
            },
        }
        out.append(" in ");
        push_decimal(&mut out, self.response_time_ms);
        out.append("ms");
        assert(out@ =~= summary(*self));
        out
    }

    /// Appends the JSON object of this record to `out`.
    pub fn write_json(&self, out: &mut String)
        ensures
            final(out)@ == old(out)@ + record_json(*self),
    {
        out.append("{\"url\": ");
        push_json_string(out, self.url.as_str());
        out.append(", \"status\": ");
        match &self.action_status {
            Ok(code) => push_decimal(out, *code as u64),
            Err(message) => push_json_string(out, message.as_str()),
        }
        out.append(", \"response_time_ms\": ");
        push_decimal(out, self.response_time_ms);
        out.append(", \"timestamp\": ");
        push_decimal(out, self.timestamp);
        out.append("}");
        assert(out@ =~= old(out)@ + record_json(*self));
    }

    /// The JSON object of this record.
    pub fn to_json_string(&self) -> (r: String)
        ensures
            r@ == record_json(*self),
    {
        let mut out = String::new();
        self.write_json(&mut out);
        assert(out@ =~= record_json(*self));
        out
    }
}

/// The report of all `records`: a JSON array with one object per record, in
/// the order given.
pub fn report_json(records: &Vec<WebsiteStatus>) -> (r: String)
    ensures
        r@ == report(records@),
{
    let mut out = String::from_str("[");
    let mut i: usize = 0;
    while i < records.len()
        invariant
            i <= records@.len(),
            out@ == "["@ + report_items(records@.subrange(0, i as int)),
        decreases records@.len() - i,
    {
        if i == 0 {
            out.append("\n");
        } else {
            out.append(",\n");
        }
        records[i].write_json(&mut out);
        proof {
            let next = records@.subrange(0, i + 1);
            assert(next.drop_last() =~= records@.subrange(0, i as int));
            assert(next.last() == records@[i as int]);
            assert(out@ =~= "["@ + report_items(next));
        }
        i = i + 1;
    }
    out.append("\n]");
    assert(records@.subrange(0, records@.len() as int) =~= records@);
    assert(out@ =~= report(records@));
    out
}

} // verus!

use vstd::prelude::*;

verus! {

/// The decimal digit character for `d` in 0..10.
pub open spec fn digit_char(d: int) -> char {
    if d == 0 {
        '0'
    } else if d == 1 {
        '1'
    } else if d == 2 {
        '2'
    } else if d == 3 {
        '3'
    } else if d == 4 {
        '4'
    } else if d == 5 {
        '5'
    } else if d == 6 {
        '6'
    } else if d == 7 {
        '7'
    } else if d == 8 {
        '8'
    } else {
        '9'
    }
}

/// The decimal numeral of a non-negative integer, most significant
/// digit first, without leading zeros (`0` itself is "0").
pub open spec fn dec_of(n: int) -> Seq<char>
    recommends
        0 <= n,
    decreases n,
{
    if n < 10 {
        seq![digit_char(n)]
    } else {
        dec_of(n / 10) + seq![digit_char(n % 10)]
    }
}

fn digit_str(d: u64) -> (r: &'static str)
    requires
        d < 10,
    ensures
        r@ =~= seq![digit_char(d as int)],
{
    proof {
        reveal_strlit("0");
        reveal_strlit("1");
        reveal_strlit("2");
        reveal_strlit("3");
        reveal_strlit("4");
        reveal_strlit("5");
        reveal_strlit("6");
        reveal_strlit("7");
        reveal_strlit("8");
        reveal_strlit("9");
    }
    match d {
        0 => "0",
        1 => "1",
        2 => "2",
        3 => "3",
        4 => "4",
        5 => "5",
        6 => "6",
        7 => "7",
        8 => "8",
        _ => "9",
    }
}

fn push_decimal(n: u64, out: &mut String)
    ensures
        final(out)@ == old(out)@ + dec_of(n as int),
    decreases n,
{
    if n < 10 {
        out.append(digit_str(n));
    } else {
        push_decimal(n / 10, out);
        out.append(digit_str(n % 10));
        proof {
            assert(out@ =~= old(out)@ + dec_of(n as int));
        }
    }
}

/// Renders an unsigned integer as its decimal numeral.
pub fn u64_to_string(n: u64) -> (r: String)
    ensures
        r@ == dec_of(n as int),
{
    let mut s = String::new();
    push_decimal(n, &mut s);
    proof {
        assert(s@ =~= dec_of(n as int));
    }
    s
}

/// The address the server binds to: `<host>:<port>`.
pub open spec fn bind_address_spec(host: Seq<char>, port: int) -> Seq<char> {
    host + ":"@ + dec_of(port)
}

/// Renders the server bind address from the configuration's host and
/// port.
pub fn bind_address(host: &str, port: u16) -> (r: String)
    ensures
        r@ == bind_address_spec(host@, port as int),
{
    let mut s = host.to_owned();
    s.append(":");
    let p = u64_to_string(port as u64);
    s.append(p.as_str());
    proof {
        assert(s@ =~= bind_address_spec(host@, port as int));
    }
    s
}

/// `"s"`: one domain, quoted.
pub open spec fn quoted(s: Seq<char>) -> Seq<char> {
    seq!['"'] + s + seq!['"']
}

/// The domains, each quoted, joined with `", "`.
pub open spec fn joined_domains(ds: Seq<Seq<char>>) -> Seq<char>
    decreases ds.len(),
{
    if ds.len() == 0 {
        Seq::empty()
    } else if ds.len() == 1 {
        quoted(ds[0])
    } else {
        quoted(ds[0]) + ", "@ + joined_domains(ds.skip(1))
    }
}

/// The domain list rendered as `["a", "b"]`.
pub open spec fn domains_list(ds: Seq<Seq<char>>) -> Seq<char> {
    seq!['['] + joined_domains(ds) + seq![']']
}

fn push_domains_from(domains: &Vec<String>, i: usize, out: &mut String)
    requires
        i <= domains.len(),
    ensures
        final(out)@ == old(out)@ + joined_domains(domains.deep_view().skip(i as int)),
    decreases domains.len() - i,
{
    proof {
        reveal_strlit("\"");
    }
    if i < domains.len() {
        out.append("\"");
        out.append(domains[i].as_str());
        out.append("\"");
        if i + 1 < domains.len() {
            out.append(", ");
        }
        push_domains_from(domains, i + 1, out);
        proof {
            let ds = domains.deep_view();
            assert(ds.skip(i as int)[0] == ds[i as int]);
            assert(ds.skip(i as int).skip(1) =~= ds.skip(i as int + 1));
            assert(out@ =~= old(out)@ + joined_domains(ds.skip(i as int)));
        }
    } else {
        proof {
            assert(domains.deep_view().skip(i as int).len() == 0);
        }
    }
}

/// Renders the domain list as `["a", "b"]`.
pub fn domains_debug(domains: &Vec<String>) -> (r: String)
    ensures
        r@ == domains_list(domains.deep_view()),
{
    let mut s = String::from_str("[");
    push_domains_from(domains, 0, &mut s);
    s.append("]");
    proof {
        reveal_strlit("[");
        reveal_strlit("]");
        assert(domains.deep_view().skip(0) =~= domains.deep_view());
        assert(s@ =~= domains_list(domains.deep_view()));
    }
    s
}

/// `true` or `false`.
pub open spec fn bool_str(b: bool) -> Seq<char> {
    if b {
        "true"@
    } else {
        "false"@
    }
}

fn bool_to_str(b: bool) -> (r: &'static str)
    ensures
        r@ == bool_str(b),
{
    if b {
        "true"
    } else {
        "false"
    }
}

/// The configuration rendered field by field, one line per field, with
/// the password redacted to a fixed placeholder.
pub open spec fn report_spec(c: crate::config::ConfigV) -> Seq<Seq<char>> {
    seq![
        "  - domains: "@ + domains_list(c.domains),
        "  - interval: "@ + dec_of(c.interval) + " seconds"@,
        "  - server_host: "@ + c.server_host,
        "  - server_port: "@ + dec_of(c.server_port),
        "  - enable_bale: "@ + bool_str(c.enable_bale),
        "  - bale_token: "@ + c.bale_token,
        "  - bale_chat_id: "@ + c.bale_chat_id,
        "  - web_username: "@ + c.web_username,
        "  - web_password: [hidden]"@,
        "  - db_path: "@ + c.db_path,
        "  - log_level: "@ + c.log_level,
    ]
}

fn labeled(label: &str, value: &str) -> (r: String)
    ensures
        r@ == label@ + value@,
{
    let mut s = label.to_owned();
    s.append(value);
    s
}

/// The field-by-field report of a configuration: eleven lines, one per
/// field, the password replaced by a fixed placeholder.
pub fn config_report(c: &crate::config::AppConfig) -> (r: Vec<String>)
    ensures
        r.deep_view() == report_spec(c@),
{
    let mut lines: Vec<String> = Vec::new();
    lines.push(labeled("  - domains: ", domains_debug(&c.domains).as_str()));
    let mut interval_line = labeled("  - interval: ", u64_to_string(c.interval).as_str());
    interval_line.append(" seconds");
    proof {
        assert(interval_line@ =~= "  - interval: "@ + dec_of(c.interval as int) + " seconds"@);
    }
    lines.push(interval_line);
    lines.push(labeled("  - server_host: ", c.server_host.as_str()));
    lines.push(labeled("  - server_port: ", u64_to_string(c.server_port as u64).as_str()));
    lines.push(labeled("  - enable_bale: ", bool_to_str(c.enable_bale)));
    lines.push(labeled("  - bale_token: ", c.bale_token.as_str()));
    lines.push(labeled("  - bale_chat_id: ", c.bale_chat_id.as_str()));
    lines.push(labeled("  - web_username: ", c.web_username.as_str()));
    lines.push(String::from_str("  - web_password: [hidden]"));
    lines.push(labeled("  - db_path: ", c.db_path.as_str()));
    lines.push(labeled("  - log_level: ", c.log_level.as_str()));
    proof {
        assert(lines.deep_view() =~= report_spec(c@));
    }
    lines
}

} // verus!

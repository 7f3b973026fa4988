//! The `cour doctor` checks: which settings are missing and the report.

use vstd::prelude::*;
use crate::config::{AppConfig, ProviderConfig, SmtpIdentityConfig};
use crate::text::{decimal, join_spec, push_str, string_views, trim_ws};
use crate::threading::opt_view;

verus! {

pub open spec fn blank_opt(o: Option<Seq<char>>) -> bool {
    match o {
        Some(v) => trim_ws(v).len() == 0,
        None => true,
    }
}

fn is_blank_opt(o: &Option<String>) -> (b: bool)
    ensures
        b == blank_opt(opt_view(*o)),
{
    match o {
        Some(v) => crate::text::is_blank(v.as_str()),
        None => true,
    }
}

pub open spec fn when(b: bool, name: Seq<char>) -> Seq<Seq<char>> {
    if b {
        seq![name]
    } else {
        Seq::empty()
    }
}

/// The provider settings that are blank or missing: provider, model, API URL.
pub open spec fn provider_missing_spec(p: ProviderConfig) -> Seq<Seq<char>> {
    when(trim_ws(p.provider@).len() == 0, "provider"@) + when(trim_ws(p.model@).len() == 0, "model"@)
        + when(blank_opt(opt_view(p.api_url)), "api_url"@)
}

fn push_if(v: &mut Vec<&'static str>, b: bool, name: &'static str)
    ensures
        final(v)@.map_values(|s: &'static str| s@) == old(v)@.map_values(|s: &'static str| s@) + when(b, name@),
{
    if b {
        v.push(name);
    }
    assert(v@.map_values(|s: &'static str| s@) =~= old(v)@.map_values(|s: &'static str| s@) + when(b, name@));
}

pub fn provider_missing_fields(provider: &ProviderConfig) -> (r: Vec<&'static str>)
    ensures
        r@.map_values(|s: &'static str| s@) == provider_missing_spec(*provider),
{
    let mut missing: Vec<&'static str> = Vec::new();
    assert(missing@.map_values(|s: &'static str| s@) =~= Seq::<Seq<char>>::empty());
    push_if(&mut missing, crate::text::is_blank(provider.provider.as_str()), "provider");
    push_if(&mut missing, crate::text::is_blank(provider.model.as_str()), "model");
    push_if(&mut missing, is_blank_opt(&provider.api_url), "api_url");
    missing
}

/// The identity settings that are blank or missing: name, address, host, a
/// zero port, user name, password variable.
pub open spec fn smtp_missing_spec(s: SmtpIdentityConfig) -> Seq<Seq<char>> {
    when(trim_ws(s.name@).len() == 0, "name"@) + when(
        trim_ws(s.email_address@).len() == 0,
        "email_address"@,
    ) + when(trim_ws(s.host@).len() == 0, "host"@) + when(s.port == 0, "port"@) + when(
        blank_opt(opt_view(s.username)),
        "username"@,
    ) + when(blank_opt(opt_view(s.password_env)), "password_env"@)
}

pub fn smtp_missing_fields(smtp: &SmtpIdentityConfig) -> (r: Vec<&'static str>)
    ensures
        r@.map_values(|s: &'static str| s@) == smtp_missing_spec(*smtp),
{
    let mut missing: Vec<&'static str> = Vec::new();
    assert(missing@.map_values(|s: &'static str| s@) =~= Seq::<Seq<char>>::empty());
    push_if(&mut missing, crate::text::is_blank(smtp.name.as_str()), "name");
    push_if(&mut missing, crate::text::is_blank(smtp.email_address.as_str()), "email_address");
    push_if(&mut missing, crate::text::is_blank(smtp.host.as_str()), "host");
    push_if(&mut missing, smtp.port == 0, "port");
    push_if(&mut missing, is_blank_opt(&smtp.username), "username");
    push_if(&mut missing, is_blank_opt(&smtp.password_env), "password_env");
    missing
}

fn join_static(v: &Vec<&'static str>, sep: &str) -> (r: String)
    ensures
        r@ == join_spec(v@.map_values(|s: &'static str| s@), sep@),
{
    let mut owned: Vec<String> = Vec::new();
    let mut i: usize = 0;
    while i < v.len()
        invariant
            i <= v@.len(),
            string_views(owned@) == v@.map_values(|s: &'static str| s@).take(i as int),
        decreases v@.len() - i,
    {
        let ghost before = owned@;
        owned.push(v[i].to_string());
        assert(string_views(owned@) =~= string_views(before).push(v@[i as int]@));
        assert(string_views(owned@) =~= v@.map_values(|s: &'static str| s@).take(i + 1));
        i = i + 1;
    }
    assert(v@.map_values(|s: &'static str| s@).take(v@.len() as int) =~= v@.map_values(
        |s: &'static str| s@,
    ));
    crate::text::join_strings(&owned, sep)
}

/// The line for one AI role, and whether it counts as a problem: not
/// configured, disabled, complete with its endpoint, or incomplete with the
/// missing settings.
pub open spec fn provider_line_spec(label: Seq<char>, p: Option<ProviderConfig>) -> (Seq<char>, bool) {
    match p {
        None => ("ai:"@ + label + ": not configured"@, false),
        Some(p) => if p.enabled == Some(false) {
            (
                "ai:"@ + label + ": disabled (provider="@ + p.provider@ + ", model="@ + p.model@
                    + ")"@,
                false,
            )
        } else if provider_missing_spec(p).len() == 0 {
            (
                "ai:"@ + label + ": ok (provider="@ + p.provider@ + ", model="@ + p.model@
                    + ", endpoint="@ + (match p.api_url {
                    Some(u) => u@,
                    None => "default endpoint"@,
                }) + ")"@,
                false,
            )
        } else {
            (
                "ai:"@ + label + ": incomplete ("@ + join_spec(provider_missing_spec(p), ", "@)
                    + ") -- set required config fields"@,
                true,
            )
        },
    }
}

pub fn push_provider_diagnostics(lines: &mut Vec<String>, problems: &mut usize, label: &str, provider: Option<&ProviderConfig>)
    requires
        *old(problems) < usize::MAX,
    ensures
        string_views(final(lines)@) == string_views(old(lines)@).push(
            provider_line_spec(label@, match provider {
                Some(p) => Some(*p),
                None => None,
            }).0,
        ),
        *final(problems) == *old(problems) + (if provider_line_spec(label@, match provider {
            Some(p) => Some(*p),
            None => None,
        }).1 {
            1int
        } else {
            0
        }),
{
    let ghost before = lines@;
    let mut line = "ai:".to_string();
    push_str(&mut line, label);
    match provider {
        None => {
            push_str(&mut line, ": not configured");
        },
        Some(p) => {
            let disabled = match p.enabled {
                Some(e) => !e,
                None => false,
            };
            if disabled {
                push_str(&mut line, ": disabled (provider=");
                push_str(&mut line, p.provider.as_str());
                push_str(&mut line, ", model=");
                push_str(&mut line, p.model.as_str());
                push_str(&mut line, ")");
            } else {
                let missing = provider_missing_fields(p);
                if missing.len() == 0 {
                    push_str(&mut line, ": ok (provider=");
                    push_str(&mut line, p.provider.as_str());
                    push_str(&mut line, ", model=");
                    push_str(&mut line, p.model.as_str());
                    push_str(&mut line, ", endpoint=");
                    match &p.api_url {
                        Some(u) => push_str(&mut line, u.as_str()),
                        None => push_str(&mut line, "default endpoint"),
                    }
                    push_str(&mut line, ")");
                } else {
                    *problems = *problems + 1;
                    push_str(&mut line, ": incomplete (");
                    push_str(&mut line, join_static(&missing, ", ").as_str());
                    push_str(&mut line, ") -- set required config fields");
                }
            }
        },
    }
    lines.push(line);
    assert(string_views(lines@) =~= string_views(before).push(line@));
}

/// The line for one sending identity, and whether it counts as a problem.
pub open spec fn smtp_line_spec(s: SmtpIdentityConfig) -> (Seq<char>, bool) {
    if smtp_missing_spec(s).len() == 0 {
        (
            "smtp:"@ + s.name@ + ": ok ("@ + s.host@ + ":"@ + decimal(s.port as nat) + ", sender="@
                + s.email_address@ + ")"@,
            false,
        )
    } else {
        (
            "smtp:"@ + s.name@ + ": incomplete ("@ + join_spec(smtp_missing_spec(s), ", "@)
                + ") -- update this identity before sending"@,
            true,
        )
    }
}

pub fn push_smtp_diagnostics(lines: &mut Vec<String>, problems: &mut usize, smtp: &SmtpIdentityConfig)
    requires
        *old(problems) < usize::MAX,
    ensures
        string_views(final(lines)@) == string_views(old(lines)@).push(smtp_line_spec(*smtp).0),
        *final(problems) == *old(problems) + (if smtp_line_spec(*smtp).1 {
            1int
        } else {
            0
        }),
{
    let ghost before = lines@;
    let missing = smtp_missing_fields(smtp);
    let mut line = "smtp:".to_string();
    push_str(&mut line, smtp.name.as_str());
    if missing.len() == 0 {
        push_str(&mut line, ": ok (");
        push_str(&mut line, smtp.host.as_str());
        push_str(&mut line, ":");
        crate::text::push_decimal(&mut line, smtp.port as u64);
        push_str(&mut line, ", sender=");
        push_str(&mut line, smtp.email_address.as_str());
        push_str(&mut line, ")");
    } else {
        *problems = *problems + 1;
        push_str(&mut line, ": incomplete (");
        push_str(&mut line, join_static(&missing, ", ").as_str());
        push_str(&mut line, ") -- update this identity before sending");
    }
    lines.push(line);
    assert(string_views(lines@) =~= string_views(before).push(line@));
}

/// The Maildir line of an account, and whether it counts as a problem.
pub open spec fn maildir_line_spec(name: Seq<char>, root: Seq<char>, exists: bool) -> Seq<char> {
    if exists {
        "maildir:"@ + name + ": ok ("@ + root + ")"@
    } else {
        "maildir:"@ + name + ": missing ("@ + root + ") -- create or reconfigure this path"@
    }
}

/// The problems counted over the accounts' Maildirs.
pub open spec fn missing_count(exists: Seq<bool>) -> nat
    decreases exists.len(),
{
    if exists.len() == 0 {
        0
    } else {
        missing_count(exists.drop_last()) + if exists.last() {
            0nat
        } else {
            1nat
        }
    }
}

/// The lines of the doctor report before the summary.
pub open spec fn doctor_lines(config_path: Seq<char>, state_dir: Seq<char>, db_path: Seq<char>, c: AppConfig, exists: Seq<bool>) -> Seq<Seq<char>> {
    let accts = c.accounts@;
    seq![
        "config: ok ("@ + config_path + ")"@,
        "state_dir: ok ("@ + state_dir + ")"@,
        "database: ok ("@ + db_path + ")"@,
    ] + Seq::new(accts.len(), |i: int| maildir_line_spec(accts[i].name@, accts[i].maildir_root@, exists[i]))
        + seq![
        provider_line_spec("extraction"@, c.ai.extraction).0,
        provider_line_spec("embedding"@, c.ai.embedding).0,
        provider_line_spec("drafting"@, c.ai.drafting).0,
    ] + (if c.smtp@.len() == 0 {
        seq!["smtp: none configured"@]
    } else {
        c.smtp@.map_values(|s: SmtpIdentityConfig| smtp_line_spec(s).0)
    })
}

pub open spec fn flag(b: bool) -> nat {
    if b {
        1
    } else {
        0
    }
}

pub open spec fn smtp_problems(ss: Seq<SmtpIdentityConfig>) -> nat
    decreases ss.len(),
{
    if ss.len() == 0 {
        0
    } else {
        smtp_problems(ss.drop_last()) + flag(smtp_line_spec(ss.last()).1)
    }
}

/// The number of problems the report counts.
pub open spec fn doctor_problems(c: AppConfig, exists: Seq<bool>) -> nat {
    missing_count(exists) + flag(provider_line_spec("extraction"@, c.ai.extraction).1) + flag(
        provider_line_spec("embedding"@, c.ai.embedding).1,
    ) + flag(provider_line_spec("drafting"@, c.ai.drafting).1) + smtp_problems(c.smtp@)
}

/// The doctor report: the paths checked, each account's Maildir (whether it
/// exists is given in account order), each AI role, each identity, and the
/// number of problems.
pub fn doctor_report(config_path: &str, state_dir: &str, db_path: &str, config: &AppConfig, maildir_exists: &Vec<bool>) -> (r: String)
    requires
        maildir_exists@.len() == config.accounts@.len(),
        config.accounts@.len() + config.smtp@.len() + 3 < usize::MAX,
    ensures
        r@ == join_spec(
            doctor_lines(config_path@, state_dir@, db_path@, *config, maildir_exists@).push(
                "summary: "@ + decimal(doctor_problems(*config, maildir_exists@))
                    + " issue(s), network checks skipped"@,
            ),
            "\n"@,
        ),
{
    let mut lines: Vec<String> = Vec::new();
    let mut problems: usize = 0;
    let mut l1 = "config: ok (".to_string();
    push_str(&mut l1, config_path);
    push_str(&mut l1, ")");
    lines.push(l1);
    let mut l2 = "state_dir: ok (".to_string();
    push_str(&mut l2, state_dir);
    push_str(&mut l2, ")");
    lines.push(l2);
    let mut l3 = "database: ok (".to_string();
    push_str(&mut l3, db_path);
    push_str(&mut l3, ")");
    lines.push(l3);
    let ghost accts = config.accounts@;
    let ghost ex = maildir_exists@;
    let ghost head = seq![
        "config: ok ("@ + config_path@ + ")"@,
        "state_dir: ok ("@ + state_dir@ + ")"@,
        "database: ok ("@ + db_path@ + ")"@,
    ];
    assert(string_views(lines@) =~= head);
    let mut i: usize = 0;
    while i < config.accounts.len()
        invariant
            i <= accts.len(),
            accts == config.accounts@,
            ex == maildir_exists@,
            ex.len() == accts.len(),
            accts.len() + config.smtp@.len() + 3 < usize::MAX,
            problems == missing_count(ex.take(i as int)),
            problems <= i,
            string_views(lines@) == head + Seq::new(
                i as nat,
                |k: int| maildir_line_spec(accts[k].name@, accts[k].maildir_root@, ex[k]),
            ),
        decreases accts.len() - i,
    {
        let a = &config.accounts[i];
        let mut l = "maildir:".to_string();
        push_str(&mut l, a.name.as_str());
        if maildir_exists[i] {
            push_str(&mut l, ": ok (");
            push_str(&mut l, a.maildir_root.as_str());
            push_str(&mut l, ")");
        } else {
            problems = problems + 1;
            push_str(&mut l, ": missing (");
            push_str(&mut l, a.maildir_root.as_str());
            push_str(&mut l, ") -- create or reconfigure this path");
        }
        proof {
            assert(ex.take(i + 1).drop_last() =~= ex.take(i as int));
        }
        let ghost before = lines@;
        lines.push(l);
        assert(string_views(lines@) =~= string_views(before).push(l@));
        assert(string_views(lines@) =~= head + Seq::new(
            (i + 1) as nat,
            |k: int| maildir_line_spec(accts[k].name@, accts[k].maildir_root@, ex[k]),
        ));
        i = i + 1;
    }
    assert(ex.take(accts.len() as int) =~= ex);
    let ghost mid = string_views(lines@);
    push_provider_diagnostics(&mut lines, &mut problems, "extraction", config.ai.extraction.as_ref());
    push_provider_diagnostics(&mut lines, &mut problems, "embedding", config.ai.embedding.as_ref());
    push_provider_diagnostics(&mut lines, &mut problems, "drafting", config.ai.drafting.as_ref());
    let ghost mid2 = string_views(lines@);
    let ghost p2 = problems;
    if config.smtp.len() == 0 {
        lines.push("smtp: none configured".to_string());
        assert(string_views(lines@) =~= mid2.push("smtp: none configured"@));
    } else {
        let mut j: usize = 0;
        let ghost ss = config.smtp@;
        while j < config.smtp.len()
            invariant
                j <= ss.len(),
                ss == config.smtp@,
                p2 <= accts.len() + 3,
                accts.len() + ss.len() + 3 < usize::MAX,
                problems == p2 + smtp_problems(ss.take(j as int)),
                smtp_problems(ss.take(j as int)) <= j,
                string_views(lines@) == mid2 + ss.take(j as int).map_values(
                    |s: SmtpIdentityConfig| smtp_line_spec(s).0,
                ),
            decreases ss.len() - j,
        {
            proof {
                assert(ss.take(j + 1).drop_last() =~= ss.take(j as int));
            }
            push_smtp_diagnostics(&mut lines, &mut problems, &config.smtp[j]);
            assert(string_views(lines@) =~= mid2 + ss.take(j + 1).map_values(
                |s: SmtpIdentityConfig| smtp_line_spec(s).0,
            ));
            j = j + 1;
        }
        assert(ss.take(ss.len() as int) =~= ss);
    }
    assert(string_views(lines@) =~= doctor_lines(config_path@, state_dir@, db_path@, *config, maildir_exists@));
    let mut summary = "summary: ".to_string();
    crate::text::push_decimal(&mut summary, problems as u64);
    push_str(&mut summary, " issue(s), network checks skipped");
    let ghost before = lines@;
    lines.push(summary);
    assert(string_views(lines@) =~= string_views(before).push(summary@));
    crate::text::join_strings(&lines, "\n")
}

} // verus!

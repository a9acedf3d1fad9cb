//! The diagnostic report formatter: assembles the issue body out of the
//! crash details, the ambient facts (operating system, architecture,
//! capture time) and the build metadata.

use vstd::prelude::*;
use vstd::string::StringExecFns;

verus! {

/// Identifying strings of the build that crashed: its semantic version, its
/// cargo package name, and the name of the crate that panicked.
#[derive(Clone, Debug)]
pub struct CargoPanicMetadata {
    pub version: String,
    pub pkg_name: String,
    pub crate_name: String,
}

/// The fixed text standing before the crash details in a report body: the
/// instructional header and the opening of the "Error" section.
pub open spec fn report_head() -> Seq<char> {
    "\n<h2>Information</h2>\n\n<!-- Please describe what happened to the best of your ability here -->\n\n<h3>Error</h3>\n\n```\n"@
}

/// The fixed text between the crash details and the labelled metadata lines:
/// the close of the "Error" section and the opening of "Additional Info".
pub open spec fn report_mid() -> Seq<char> {
    "\n```\n\n<h3>Additional Info</h3>\n\n```\n"@
}

/// The fixed text closing a report body: the footer crediting the tool.
pub open spec fn report_tail() -> Seq<char> {
    "\n```\n\n---\n*This issue was auto-generated by the [`crashreport`](https://github.com/ewpratten/crashreport-rs) crate.*\n*If you would like to improve these diagnostics, please contribute on GitHub.*"@
}

/// The six labelled metadata lines of the "Additional Info" section, in
/// their fixed order.
pub open spec fn additional_info(
    os: Seq<char>,
    arch: Seq<char>,
    timestamp: Seq<char>,
    version: Seq<char>,
    pkg_name: Seq<char>,
    crate_name: Seq<char>,
) -> Seq<char> {
    "OS: "@ + os + "\nArchitecture: "@ + arch + "\nTimestamp: "@ + timestamp + "\nVersion: "@
        + version + "\nPackage: "@ + pkg_name + "\nCrate: "@ + crate_name
}

/// The whole report body: header, verbatim crash details, the six labelled
/// metadata lines, and the footer.
pub open spec fn report_body(
    crash: Seq<char>,
    os: Seq<char>,
    arch: Seq<char>,
    timestamp: Seq<char>,
    version: Seq<char>,
    pkg_name: Seq<char>,
    crate_name: Seq<char>,
) -> Seq<char> {
    report_head() + crash + report_mid() + additional_info(
        os,
        arch,
        timestamp,
        version,
        pkg_name,
        crate_name,
    ) + report_tail()
}

/// Assembles the report body for one crash.
///
/// `crash_details` is the caller's textual rendering of the failure; `os`,
/// `arch` and `timestamp` are the ambient facts, read by the caller at the
/// moment of the crash.
pub fn format_report_body(
    crash_details: &str,
    os: &str,
    arch: &str,
    timestamp: &str,
    metadata: &CargoPanicMetadata,
) -> (body: String)
    ensures
        body@ == report_body(
            crash_details@,
            os@,
            arch@,
            timestamp@,
            metadata.version@,
            metadata.pkg_name@,
            metadata.crate_name@,
        ),
{
    let mut body = String::new();
    body.append(
        "\n<h2>Information</h2>\n\n<!-- Please describe what happened to the best of your ability here -->\n\n<h3>Error</h3>\n\n```\n",
    );
    body.append(crash_details);
    body.append("\n```\n\n<h3>Additional Info</h3>\n\n```\n");
    body.append("OS: ");
    body.append(os);
    body.append("\nArchitecture: ");
    body.append(arch);
    body.append("\nTimestamp: ");
    body.append(timestamp);
    body.append("\nVersion: ");
    body.append(metadata.version.as_str());
    body.append("\nPackage: ");
    body.append(metadata.pkg_name.as_str());
    body.append("\nCrate: ");
    body.append(metadata.crate_name.as_str());
    body.append(
        "\n```\n\n---\n*This issue was auto-generated by the [`crashreport`](https://github.com/ewpratten/crashreport-rs) crate.*\n*If you would like to improve these diagnostics, please contribute on GitHub.*",
    );
    proof {
        assert(body@ =~= report_body(
            crash_details@,
            os@,
            arch@,
            timestamp@,
            metadata.version@,
            metadata.pkg_name@,
            metadata.crate_name@,
        ));
    }
    body
}

/// Holds when `pat` stands in `s` beginning at index `i`.
pub open spec fn occurs_at(s: Seq<char>, i: int, pat: Seq<char>) -> bool {
    0 <= i && i + pat.len() <= s.len() && s.subrange(i, i + pat.len()) == pat
}

/// The six labelled fields stand in every report body in their fixed order:
/// `OS`, `Architecture`, `Timestamp`, `Version`, `Package`, `Crate`, each
/// opening its own line of the "Additional Info" section.
pub proof fn lemma_report_labels_in_order(
    crash: Seq<char>,
    os: Seq<char>,
    arch: Seq<char>,
    timestamp: Seq<char>,
    version: Seq<char>,
    pkg_name: Seq<char>,
    crate_name: Seq<char>,
)
    ensures
        ({
            let body = report_body(crash, os, arch, timestamp, version, pkg_name, crate_name);
            let i1 = (report_head().len() + crash.len() + report_mid().len()) as int;
            let i2 = i1 + "OS: "@.len() + os.len();
            let i3 = i2 + "\nArchitecture: "@.len() + arch.len();
            let i4 = i3 + "\nTimestamp: "@.len() + timestamp.len();
            let i5 = i4 + "\nVersion: "@.len() + version.len();
            let i6 = i5 + "\nPackage: "@.len() + pkg_name.len();
            i1 < i2 < i3 < i4 < i5 < i6 && body[i1 - 1] == '\n' && occurs_at(body, i1, "OS: "@)
                && occurs_at(
                body,
                i2,
                "\nArchitecture: "@,
            ) && occurs_at(body, i3, "\nTimestamp: "@) && occurs_at(body, i4, "\nVersion: "@)
                && occurs_at(body, i5, "\nPackage: "@) && occurs_at(body, i6, "\nCrate: "@)
        }),
{
    reveal_strlit("\n```\n\n<h3>Additional Info</h3>\n\n```\n");
    reveal_strlit("OS: ");
    reveal_strlit("\nArchitecture: ");
    reveal_strlit("\nTimestamp: ");
    reveal_strlit("\nVersion: ");
    reveal_strlit("\nPackage: ");
    reveal_strlit("\nCrate: ");
    let body = report_body(crash, os, arch, timestamp, version, pkg_name, crate_name);
    let i1 = (report_head().len() + crash.len() + report_mid().len()) as int;
    let i2 = i1 + "OS: "@.len() + os.len();
    let i3 = i2 + "\nArchitecture: "@.len() + arch.len();
    let i4 = i3 + "\nTimestamp: "@.len() + timestamp.len();
    let i5 = i4 + "\nVersion: "@.len() + version.len();
    let i6 = i5 + "\nPackage: "@.len() + pkg_name.len();
    assert(body.subrange(i1, i1 + "OS: "@.len()) =~= "OS: "@);
    assert(body.subrange(i2, i2 + "\nArchitecture: "@.len()) =~= "\nArchitecture: "@);
    assert(body.subrange(i3, i3 + "\nTimestamp: "@.len()) =~= "\nTimestamp: "@);
    assert(body.subrange(i4, i4 + "\nVersion: "@.len()) =~= "\nVersion: "@);
    assert(body.subrange(i5, i5 + "\nPackage: "@.len()) =~= "\nPackage: "@);
    assert(body.subrange(i6, i6 + "\nCrate: "@.len()) =~= "\nCrate: "@);
}

/// Everything standing before the timestamp in a report body: a function of
/// the crash details and the two machine facts alone.
pub open spec fn report_before_timestamp(crash: Seq<char>, os: Seq<char>, arch: Seq<char>) -> Seq<
    char,
> {
    report_head() + crash + report_mid() + "OS: "@ + os + "\nArchitecture: "@ + arch
        + "\nTimestamp: "@
}

/// Everything standing after the timestamp in a report body: a function of
/// the build metadata alone.
pub open spec fn report_after_timestamp(
    version: Seq<char>,
    pkg_name: Seq<char>,
    crate_name: Seq<char>,
) -> Seq<char> {
    "\nVersion: "@ + version + "\nPackage: "@ + pkg_name + "\nCrate: "@ + crate_name
        + report_tail()
}

/// Two report bodies built from identical inputs except the timestamp share
/// one fixed prefix and one fixed suffix, and differ only in the timestamp
/// standing between them.
pub proof fn lemma_identical_inputs_differ_only_in_timestamp(
    crash: Seq<char>,
    os: Seq<char>,
    arch: Seq<char>,
    timestamp1: Seq<char>,
    timestamp2: Seq<char>,
    version: Seq<char>,
    pkg_name: Seq<char>,
    crate_name: Seq<char>,
)
    ensures
        report_body(crash, os, arch, timestamp1, version, pkg_name, crate_name)
            == report_before_timestamp(crash, os, arch) + timestamp1 + report_after_timestamp(
            version,
            pkg_name,
            crate_name,
        ),
        report_body(crash, os, arch, timestamp2, version, pkg_name, crate_name)
            == report_before_timestamp(crash, os, arch) + timestamp2 + report_after_timestamp(
            version,
            pkg_name,
            crate_name,
        ),
{
    assert(report_body(crash, os, arch, timestamp1, version, pkg_name, crate_name)
        =~= report_before_timestamp(crash, os, arch) + timestamp1 + report_after_timestamp(
        version,
        pkg_name,
        crate_name,
    ));
    assert(report_body(crash, os, arch, timestamp2, version, pkg_name, crate_name)
        =~= report_before_timestamp(crash, os, arch) + timestamp2 + report_after_timestamp(
        version,
        pkg_name,
        crate_name,
    ));
}

} // verus!

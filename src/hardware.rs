use vstd::prelude::*;

verus! {

/// What the shell shows about the machine it runs on.
pub struct HardwareProfile {
    pub model: String,
    pub ram_mb: u64,
    pub os_name: String,
    pub os_version: String,
    pub hostname: String,
}

impl View for HardwareProfile {
    type V = (Seq<char>, u64, Seq<char>, Seq<char>, Seq<char>);

    open spec fn view(&self) -> Self::V {
        (self.model@, self.ram_mb, self.os_name@, self.os_version@, self.hostname@)
    }
}

/// Bytes in one mebibyte.
pub const BYTES_PER_MB: u64 = 1048576;

pub open spec fn strip_leading_nul(s: Seq<char>) -> Seq<char>
    decreases s.len(),
{
    if s.len() > 0 && s[0] == '\0' {
        strip_leading_nul(s.drop_first())
    } else {
        s
    }
}

pub open spec fn strip_trailing_nul(s: Seq<char>) -> Seq<char>
    decreases s.len(),
{
    if s.len() > 0 && s.last() == '\0' {
        strip_trailing_nul(s.drop_last())
    } else {
        s
    }
}

/// `s` without the NUL characters at either end.
pub open spec fn trim_nul(s: Seq<char>) -> Seq<char> {
    strip_trailing_nul(strip_leading_nul(s))
}

pub open spec fn opt_view(o: Option<String>) -> Option<Seq<char>> {
    match o {
        Some(s) => Some(s@),
        None => None,
    }
}

pub open spec fn text_or(o: Option<Seq<char>>, fallback: Seq<char>) -> Seq<char> {
    match o {
        Some(s) => s,
        None => fallback,
    }
}

/// The model name: the device-identity text where it could be read, else a
/// fixed placeholder; either way without NUL characters at its ends.
pub open spec fn model_text(source: Option<Seq<char>>) -> Seq<char> {
    trim_nul(text_or(source, "Desktop Computer"@))
}

/// `r` is the profile made of these facts, with the fallbacks where a fact is
/// missing.
pub open spec fn profile_of(
    r: HardwareProfile,
    model_source: Option<Seq<char>>,
    total_memory: u64,
    os_name: Option<Seq<char>>,
    os_version: Option<Seq<char>>,
    host_name: Option<Seq<char>>,
) -> bool {
    &&& r.model@ == model_text(model_source)
    &&& r.ram_mb == total_memory / BYTES_PER_MB
    &&& r.os_name@ == text_or(os_name, "Unknown"@)
    &&& r.os_version@ == text_or(os_version, "Unknown"@)
    &&& r.hostname@ == text_or(host_name, "localhost"@)
}

/// Removes the NUL characters at both ends of `s`.
pub fn trim_nul_chars(s: &str) -> (r: String)
    ensures
        r@ == trim_nul(s@),
{
    let n = s.unicode_len();
    let mut lo: usize = 0;
    assert(s@.subrange(0, n as int) =~= s@);
    while lo < n && s.get_char(lo) == '\0'
        invariant
            n == s@.len(),
            lo <= n,
            strip_leading_nul(s@) == strip_leading_nul(s@.subrange(lo as int, n as int)),
        decreases n - lo,
    {
        let ghost rest = s@.subrange(lo as int, n as int);
        assert(rest.drop_first() =~= s@.subrange(lo + 1, n as int));
        lo = lo + 1;
    }
    proof {
        let rest = s@.subrange(lo as int, n as int);
        assert(strip_leading_nul(rest) == rest);
    }
    let mut hi: usize = n;
    while hi > lo && s.get_char(hi - 1) == '\0'
        invariant
            n == s@.len(),
            lo <= hi <= n,
            strip_leading_nul(s@) == s@.subrange(lo as int, n as int),
            trim_nul(s@) == strip_trailing_nul(s@.subrange(lo as int, hi as int)),
        decreases hi - lo,
    {
        let ghost rest = s@.subrange(lo as int, hi as int);
        assert(rest.drop_last() =~= s@.subrange(lo as int, hi - 1));
        hi = hi - 1;
    }
    proof {
        let rest = s@.subrange(lo as int, hi as int);
        assert(strip_trailing_nul(rest) == rest);
    }
    String::from_str(s.substring_char(lo, hi))
}

fn text_or_fallback(o: Option<String>, fallback: &str) -> (r: String)
    ensures
        r@ == text_or(opt_view(o), fallback@),
{
    match o {
        Some(s) => s,
        None => String::from_str(fallback),
    }
}

/// Builds the profile from the facts gathered about the host: the raw
/// device-identity text (`None` where it could not be read), the memory size in
/// bytes, and the operating system's name, version and host name where known.
pub fn hardware_profile_from(
    model_source: Option<String>,
    total_memory: u64,
    os_name: Option<String>,
    os_version: Option<String>,
    host_name: Option<String>,
) -> (r: HardwareProfile)
    ensures
        profile_of(
            r,
            opt_view(model_source),
            total_memory,
            opt_view(os_name),
            opt_view(os_version),
            opt_view(host_name),
        ),
{
    let raw = text_or_fallback(model_source, "Desktop Computer");
    HardwareProfile {
        model: trim_nul_chars(raw.as_str()),
        ram_mb: total_memory / BYTES_PER_MB,
        os_name: text_or_fallback(os_name, "Unknown"),
        os_version: text_or_fallback(os_version, "Unknown"),
        hostname: text_or_fallback(host_name, "localhost"),
    }
}

#[verifier::external_type_specification]
#[verifier::external_body]
pub struct ExSystem(sysinfo::System);

/// Relies on sysinfo's `System::new_all`: a snapshot of the host with every
/// kind of information loaded.
pub assume_specification[ sysinfo::System::new_all ]() -> sysinfo::System;

/// Relies on sysinfo's `System::total_memory`: the RAM size in bytes.
pub assume_specification[ sysinfo::System::total_memory ](sys: &sysinfo::System) -> u64;

/// Relies on sysinfo's `System::name`: the operating system's name, if known.
pub assume_specification[ sysinfo::System::name ]() -> Option<String>;

/// Relies on sysinfo's `System::os_version`: the operating system's version,
/// if known.
pub assume_specification[ sysinfo::System::os_version ]() -> Option<String>;

/// Relies on sysinfo's `System::host_name`: the host name, if known.
pub assume_specification[ sysinfo::System::host_name ]() -> Option<String>;

/// Queries the host for its memory size and operating system identity, and
/// builds the profile with `model_source` as the device-identity text (`None`
/// where it could not be read).
pub fn get_hardware_profile(model_source: Option<String>) -> (r: HardwareProfile)
    ensures
        exists|
            total_memory: u64,
            os_name: Option<Seq<char>>,
            os_version: Option<Seq<char>>,
            host_name: Option<Seq<char>>,
        |
            #[trigger] profile_of(
                r,
                opt_view(model_source),
                total_memory,
                os_name,
                os_version,
                host_name,
            ),
{
    let sys = sysinfo::System::new_all();
    let total_memory = sys.total_memory();
    let os_name = sysinfo::System::name();
    let os_version = sysinfo::System::os_version();
    let host_name = sysinfo::System::host_name();
    let ghost facts = (opt_view(os_name), opt_view(os_version), opt_view(host_name));
    let r = hardware_profile_from(model_source, total_memory, os_name, os_version, host_name);
    assert(profile_of(r, opt_view(model_source), total_memory, facts.0, facts.1, facts.2));
    r
}

/// Two profiles built from the same host facts are equal.
pub proof fn lemma_profile_repeatable(
    r1: HardwareProfile,
    r2: HardwareProfile,
    model_source: Option<Seq<char>>,
    total_memory: u64,
    os_name: Option<Seq<char>>,
    os_version: Option<Seq<char>>,
    host_name: Option<Seq<char>>,
)
    requires
        profile_of(r1, model_source, total_memory, os_name, os_version, host_name),
        profile_of(r2, model_source, total_memory, os_name, os_version, host_name),
    ensures
        r1@ == r2@,
{
}

/// Where the device-identity text could not be read, the model is the fixed
/// placeholder.
pub proof fn lemma_unreadable_model(
    r: HardwareProfile,
    total_memory: u64,
    os_name: Option<Seq<char>>,
    os_version: Option<Seq<char>>,
    host_name: Option<Seq<char>>,
)
    requires
        profile_of(r, None, total_memory, os_name, os_version, host_name),
    ensures
        r.model@ == "Desktop Computer"@,
{
    reveal_strlit("Desktop Computer");
    let s = "Desktop Computer"@;
    assert(s.len() > 0 && s[0] != '\0');
    assert(strip_leading_nul(s) == s);
    assert(s.last() != '\0');
    assert(strip_trailing_nul(s) == s);
}

} // verus!

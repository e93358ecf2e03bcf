//! The base AWS service: which configuration an account uses, and how the SDK
//! configuration for an account is to be built (which credentials, which profile).
use vstd::prelude::*;
use crate::errors::AppError;
use crate::text::{concat2, lines_of, owned, str_eq, text_lines, to_lowercase, unicode_lower};

verus! {

/// One configured AWS profile of the application.
pub struct AwsConfig {
    pub profile: Option<String>,
    pub region: String,
}

/// The cloud section of the application configuration.
pub struct CloudConfig {
    pub aws: Vec<AwsConfig>,
}

/// The application configuration that the AWS services read.
pub struct Config {
    pub cloud: CloudConfig,
}

/// The stored settings of one AWS account.
pub struct AwsAccountDto {
    pub account_id: String,
    pub profile: Option<String>,
    pub default_region: String,
    pub auth_type: String,
    pub use_role: bool,
    pub role_arn: Option<String>,
    pub has_access_key: bool,
    pub access_key_id: Option<String>,
    pub secret_access_key: Option<String>,
    pub sso_profile: Option<String>,
    pub source_profile: Option<String>,
    pub session_name: Option<String>,
    pub web_identity_token_file: Option<String>,
}

/// Base AWS service.
pub struct AwsService {
    config: Config,
}

fn clone_opt(s: &Option<String>) -> (r: Option<String>)
    ensures
        r == *s,
{
    match s {
        Some(x) => Some(x.clone()),
        None => None,
    }
}

impl AwsConfig {
    pub fn duplicate(&self) -> (r: AwsConfig)
        ensures
            r == *self,
    {
        AwsConfig { profile: clone_opt(&self.profile), region: self.region.clone() }
    }
}

/// The optional text as characters.
pub open spec fn opt_chars(o: Option<String>) -> Option<Seq<char>> {
    match o {
        Some(s) => Some(s@),
        None => None,
    }
}

/// The index of the first configuration at or after `k` whose profile is `name`.
pub open spec fn first_with_profile(cs: Seq<AwsConfig>, name: Seq<char>, k: int) -> Option<int>
    decreases cs.len() - k,
{
    if k < 0 || k >= cs.len() {
        None
    } else if opt_chars(cs[k].profile) == Some(name) {
        Some(k)
    } else {
        first_with_profile(cs, name, k + 1)
    }
}

/// The configuration an account uses: the one configured for its profile,
/// or the first one when the account names no profile.
pub open spec fn config_index(cs: Seq<AwsConfig>, profile: Option<Seq<char>>) -> Option<int> {
    match profile {
        Some(name) => first_with_profile(cs, name, 0),
        None => if cs.len() > 0 {
            Some(0)
        } else {
            None
        },
    }
}

/// What `format!("{:?}", profile)` writes for an optional profile name.
pub uninterp spec fn debug_opt_text(profile: Option<Seq<char>>) -> Seq<char>;

/// Calls std's `Debug` formatting of an `Option<String>` through `format!`.
/// The contract claims only that the text is std's for this value.
#[verifier::external_body]
fn debug_opt_string(profile: &Option<String>) -> (r: String)
    ensures
        r@ == debug_opt_text(opt_chars(*profile)),
{
    format!("{:?}", profile)
}

fn find_profile(configs: &Vec<AwsConfig>, name: &str) -> (r: Option<usize>)
    ensures
        match r {
            Some(i) => first_with_profile(configs@, name@, 0) == Some(i as int),
            None => first_with_profile(configs@, name@, 0) is None,
        },
        r matches Some(i) ==> i < configs@.len(),
{
    for i in 0..configs.len()
        invariant
            first_with_profile(configs@, name@, 0) == first_with_profile(configs@, name@, i as int),
    {
        match &configs[i].profile {
            Some(p) => {
                if str_eq(p.as_str(), name) {
                    return Some(i);
                }
            },
            None => {},
        }
    }
    None
}

// ---------------------------------------------------------------------------
// How the SDK configuration of an account is built.
// ---------------------------------------------------------------------------

/// Where the SDK takes an account's credentials from.
pub enum CredentialSource {
    /// The default provider chain (environment, profile, instance or task role).
    DefaultChain,
    /// Static access keys.
    StaticKeys { access_key_id: String, secret_access_key: String },
    /// A role assumed through STS, from a base configuration with the same
    /// region and profile.
    AssumeRole { role_arn: String, session_name: Option<String> },
    /// The default chain with the web identity variables set first: the
    /// token file, role ARN and session name that are given.
    WebIdentity { token_file: Option<String>, role_arn: Option<String>, session_name: Option<String> },
}

/// What the SDK configuration of an account is built from: its region, an
/// endpoint override, the profile to load, and the credential source.
pub struct SdkConfigPlan {
    pub region: String,
    pub endpoint_url: Option<String>,
    pub profile_name: Option<String>,
    pub credentials: CredentialSource,
}

/// The authentication method actually used, from the lower-cased
/// `auth_type`: "auto" picks by the stored fields (a profile, then a role to
/// assume, then access keys, else the instance role); any other value is
/// used as it is.
pub open spec fn resolved_auth(auth: Seq<char>, d: AwsAccountDto) -> Seq<char> {
    if auth == "auto"@ {
        if d.profile is Some {
            "profile"@
        } else if d.use_role && d.role_arn is Some {
            "assume_role"@
        } else if d.has_access_key || (d.access_key_id is Some && d.secret_access_key is Some) {
            "access_keys"@
        } else {
            "instance_role"@
        }
    } else {
        auth
    }
}

/// `a`, or else `b`.
pub open spec fn or_else(a: Option<String>, b: Option<String>) -> Option<Seq<char>> {
    match a {
        Some(x) => Some(x@),
        None => opt_chars(b),
    }
}

/// The profile loaded for a resolved method: the account's profile for
/// "profile"; the SSO profile, else the profile, for "sso"; the source
/// profile, else the profile, for "assume_role"; none otherwise.
pub open spec fn profile_to_use(auth: Seq<char>, d: AwsAccountDto) -> Option<Seq<char>> {
    if auth == "profile"@ {
        opt_chars(d.profile)
    } else if auth == "sso"@ {
        or_else(d.sso_profile, d.profile)
    } else if auth == "assume_role"@ {
        or_else(d.source_profile, d.profile)
    } else {
        None
    }
}

/// The credential source is the one the resolved method calls for.
pub open spec fn credentials_hold(c: CredentialSource, auth: Seq<char>, d: AwsAccountDto) -> bool {
    if auth == "access_keys"@ {
        match (d.access_key_id, d.secret_access_key) {
            (Some(ak), Some(sk)) => c matches CredentialSource::StaticKeys { access_key_id, secret_access_key }
                && access_key_id@ == ak@ && secret_access_key@ == sk@,
            _ => c is DefaultChain,
        }
    } else if auth == "assume_role"@ {
        c matches CredentialSource::AssumeRole { role_arn, session_name } && opt_chars(Some(role_arn))
            == opt_chars(d.role_arn) && opt_chars(session_name) == opt_chars(d.session_name)
    } else if auth == "web_identity"@ {
        c matches CredentialSource::WebIdentity { token_file, role_arn, session_name } && opt_chars(
            token_file,
        ) == opt_chars(d.web_identity_token_file) && opt_chars(role_arn) == opt_chars(d.role_arn)
            && opt_chars(session_name) == opt_chars(d.session_name)
    } else {
        c is DefaultChain
    }
}

/// The plan for an account whose lower-cased auth type is `auth`, with the
/// endpoint override `endpoint` (kept only when it is not empty).
pub open spec fn plan_holds(
    r: Result<SdkConfigPlan, AppError>,
    auth: Seq<char>,
    d: AwsAccountDto,
    endpoint: Option<String>,
) -> bool {
    let a = resolved_auth(auth, d);
    if a == "assume_role"@ && d.role_arn is None {
        r matches Err(AppError::Validation(m)) && m@ == "Missing role_arn for assume_role"@
    } else {
        r matches Ok(p) && p.region@ == d.default_region@ && opt_chars(p.endpoint_url) == match endpoint {
            Some(e) => if e@.len() > 0 {
                Some(e@)
            } else {
                None
            },
            None => None,
        } && opt_chars(p.profile_name) == profile_to_use(a, d) && credentials_hold(p.credentials, a, d)
    }
}

fn or_else_opt(a: &Option<String>, b: &Option<String>) -> (r: Option<String>)
    ensures
        opt_chars(r) == or_else(*a, *b),
{
    match a {
        Some(x) => Some(x.clone()),
        None => clone_opt(b),
    }
}

/// Builds the SDK configuration plan of an account from its lower-cased
/// auth type `auth`.
pub fn sdk_config_plan(auth: &str, d: &AwsAccountDto, endpoint: Option<String>) -> (r: Result<SdkConfigPlan, AppError>)
    ensures
        plan_holds(r, auth@, *d, endpoint),
{
    let resolved: String = if str_eq(auth, "auto") {
        if d.profile.is_some() {
            owned("profile")
        } else if d.use_role && d.role_arn.is_some() {
            owned("assume_role")
        } else if d.has_access_key || (d.access_key_id.is_some() && d.secret_access_key.is_some()) {
            owned("access_keys")
        } else {
            owned("instance_role")
        }
    } else {
        owned(auth)
    };
    let a = resolved.as_str();
    assert(a@ == resolved_auth(auth@, *d));
    let profile_name = if str_eq(a, "profile") {
        clone_opt(&d.profile)
    } else if str_eq(a, "sso") {
        or_else_opt(&d.sso_profile, &d.profile)
    } else if str_eq(a, "assume_role") {
        or_else_opt(&d.source_profile, &d.profile)
    } else {
        None
    };
    let endpoint_url = match endpoint {
        Some(e) => if e.unicode_len() > 0 {
            Some(e)
        } else {
            None
        },
        None => None,
    };
    let credentials = if str_eq(a, "access_keys") {
        match (&d.access_key_id, &d.secret_access_key) {
            (Some(ak), Some(sk)) => CredentialSource::StaticKeys {
                access_key_id: ak.clone(),
                secret_access_key: sk.clone(),
            },
            _ => CredentialSource::DefaultChain,
        }
    } else if str_eq(a, "assume_role") {
        match &d.role_arn {
            Some(role) => CredentialSource::AssumeRole {
                role_arn: role.clone(),
                session_name: clone_opt(&d.session_name),
            },
            None => {
                return Err(AppError::Validation(owned("Missing role_arn for assume_role")));
            },
        }
    } else if str_eq(a, "web_identity") {
        CredentialSource::WebIdentity {
            token_file: clone_opt(&d.web_identity_token_file),
            role_arn: clone_opt(&d.role_arn),
            session_name: clone_opt(&d.session_name),
        }
    } else {
        CredentialSource::DefaultChain
    };
    proof {
        reveal_strlit("access_keys");
        reveal_strlit("assume_role");
        assert("access_keys"@[1] != "assume_role"@[1]);
    }
    Ok(SdkConfigPlan { region: d.default_region.clone(), endpoint_url, profile_name, credentials })
}

/// The text without the run of `c` that it starts with.
pub open spec fn trim_start_char(s: Seq<char>, c: char) -> Seq<char>
    decreases s.len(),
{
    if s.len() > 0 && s[0] == c {
        trim_start_char(s.drop_first(), c)
    } else {
        s
    }
}

/// The text without the run of `c` that it ends with.
pub open spec fn trim_end_char(s: Seq<char>, c: char) -> Seq<char>
    decreases s.len(),
{
    if s.len() > 0 && s.last() == c {
        trim_end_char(s.drop_last(), c)
    } else {
        s
    }
}

/// The profile a line of a credentials file names: a line that starts with
/// `[` and ends with `]` names what is left once the brackets are trimmed
/// from both ends.
pub open spec fn profile_header(line: Seq<char>) -> Option<Seq<char>> {
    if line.len() > 0 && line[0] == '[' && line.last() == ']' {
        Some(trim_end_char(trim_start_char(line, '['), ']'))
    } else {
        None
    }
}

/// The profiles that these lines name, in order, except that each `default`
/// is put in front of all that came before it.
pub open spec fn profiles_of(lines: Seq<Seq<char>>) -> Seq<Seq<char>>
    decreases lines.len(),
{
    if lines.len() == 0 {
        Seq::empty()
    } else {
        let before = profiles_of(lines.drop_last());
        match profile_header(lines.last()) {
            Some(p) => if p == "default"@ {
                seq![p] + before
            } else {
                before.push(p)
            },
            None => before,
        }
    }
}

/// The profiles offered: those the credentials file names, or `default`
/// alone where the file could not be read.
pub open spec fn available_profiles(credentials: Option<Seq<char>>) -> Seq<Seq<char>> {
    match credentials {
        Some(c) => profiles_of(lines_of(c)),
        None => seq!["default"@],
    }
}

fn trimmed_header(line: &str) -> (r: String)
    requires
        line@.len() > 0,
    ensures
        r@ == trim_end_char(trim_start_char(line@, '['), ']'),
{
    let x = crate::text::chars_of(line);
    let n = x.len();
    let mut lo: usize = 0;
    assert(line@.skip(0) =~= line@);
    while lo < n && x[lo] == '['
        invariant
            x@ == line@,
            n == x@.len(),
            lo <= n,
            trim_start_char(line@, '[') == trim_start_char(line@.skip(lo as int), '['),
        decreases n - lo,
    {
        assert(line@.skip(lo as int).drop_first() =~= line@.skip(lo + 1));
        lo = lo + 1;
    }
    assert(trim_start_char(line@, '[') == line@.skip(lo as int));
    let mut hi: usize = n;
    assert(line@.subrange(lo as int, n as int) =~= line@.skip(lo as int));
    while hi > lo && x[hi - 1] == ']'
        invariant
            x@ == line@,
            n == x@.len(),
            lo <= hi <= n,
            trim_end_char(trim_start_char(line@, '['), ']') == trim_end_char(line@.subrange(lo as int, hi as int), ']'),
        decreases hi - lo,
    {
        assert(line@.subrange(lo as int, hi as int).drop_last() =~= line@.subrange(lo as int, hi - 1));
        hi = hi - 1;
    }
    let mut r = String::new();
    let mut i: usize = lo;
    while i < hi
        invariant
            x@ == line@,
            lo <= i <= hi <= n,
            n == x@.len(),
            r@ == line@.subrange(lo as int, i as int),
        decreases hi - i,
    {
        r.push(x[i]);
        assert(r@ =~= line@.subrange(lo as int, i + 1));
        i = i + 1;
    }
    r
}

impl AwsService {
    pub closed spec fn spec_config(self) -> Config {
        self.config
    }

    pub fn new(config: Config) -> (r: AwsService)
        ensures
            r.spec_config() == config,
    {
        AwsService { config }
    }

    /// The AWS profiles offered for selection, given the text of the shared
    /// credentials file (`None` where it could not be read): the profiles
    /// its section headers name, `default` first.
    pub fn list_available_profiles(credentials: Option<&str>) -> (r: Vec<String>)
        ensures
            r@.map_values(|p: String| p@) == available_profiles(
                match credentials {
                    Some(c) => Some(c@),
                    None => None,
                },
            ),
    {
        let content = match credentials {
            Some(c) => c,
            None => {
                let mut only: Vec<String> = Vec::new();
                only.push(owned("default"));
                assert(only@.map_values(|p: String| p@) =~= seq!["default"@]);
                return only;
            },
        };
        let lines = text_lines(content);
        let ghost ls = lines@.map_values(|l: String| l@);
        let mut profiles: Vec<String> = Vec::new();
        let mut i: usize = 0;
        assert(ls.take(0) =~= Seq::<Seq<char>>::empty());
        while i < lines.len()
            invariant
                i <= lines@.len(),
                ls == lines@.map_values(|l: String| l@),
                ls == lines_of(content@),
                profiles@.map_values(|p: String| p@) == profiles_of(ls.take(i as int)),
            decreases lines@.len() - i,
        {
            let line = lines[i].as_str();
            assert(ls.take(i as int + 1).drop_last() =~= ls.take(i as int));
            assert(ls.take(i as int + 1).last() == ls[i as int]);
            assert(ls[i as int] == line@);
            let ghost before = profiles@;
            if crate::text::starts_with(line, "[") && crate::text::ends_with(line, "]") {
                proof {
                    reveal_strlit("[");
                    reveal_strlit("]");
                    assert(line@.take(1)[0] == '[');
                    assert(line@.skip(line@.len() - 1)[0] == ']');
                }
                let name = trimmed_header(line);
                if str_eq(name.as_str(), "default") {
                    profiles.insert(0, name);
                    assert(profiles@.map_values(|p: String| p@) =~= seq!["default"@] + before.map_values(
                        |p: String| p@,
                    ));
                } else {
                    profiles.push(name);
                    assert(profiles@.map_values(|p: String| p@) =~= before.map_values(|p: String| p@).push(
                        name@,
                    ));
                }
            } else {
                proof {
                    reveal_strlit("[");
                    reveal_strlit("]");
                    if line@.len() > 0 && line@[0] == '[' && line@.last() == ']' {
                        assert(crate::text::has_prefix(line@, "["@)) by {
                            assert(line@.take(1) =~= "["@);
                        }
                        assert(crate::text::has_suffix(line@, "]"@)) by {
                            assert(line@.skip(line@.len() - 1) =~= "]"@);
                        }
                    }
                }
            }
            i = i + 1;
        }
        assert(ls.take(ls.len() as int) =~= ls);
        profiles
    }

    /// The plan of the SDK configuration for an account: its auth type is
    /// compared case-insensitively; `endpoint` is the endpoint override the
    /// environment names, if any.
    pub fn get_aws_sdk_config_plan(&self, aws_account_dto: &AwsAccountDto, endpoint: Option<String>) -> (r: Result<
        SdkConfigPlan,
        AppError,
    >)
        ensures
            plan_holds(r, unicode_lower(aws_account_dto.auth_type@), *aws_account_dto, endpoint),
    {
        let auth = to_lowercase(aws_account_dto.auth_type.as_str());
        sdk_config_plan(auth.as_str(), aws_account_dto, endpoint)
    }

    /// The configuration an account uses: for a named profile, the first
    /// configuration of that profile; otherwise the first configuration.
    pub fn get_aws_config_impl(&self, aws_account_dto: &AwsAccountDto) -> (r: Result<AwsConfig, AppError>)
        ensures
            match config_index(self.spec_config().cloud.aws@, opt_chars(aws_account_dto.profile)) {
                Some(i) => r == Ok::<AwsConfig, AppError>(self.spec_config().cloud.aws@[i]),
                None => r matches Err(AppError::Config(m)) && m@ == "AWS configuration not found for profile: "@
                    + debug_opt_text(opt_chars(aws_account_dto.profile)),
            },
    {
        let configs = &self.config.cloud.aws;
        let found = match &aws_account_dto.profile {
            Some(name) => find_profile(configs, name.as_str()),
            None => if configs.len() > 0 {
                Some(0)
            } else {
                None
            },
        };
        match found {
            Some(i) => Ok(configs[i].duplicate()),
            None => {
                let d = debug_opt_string(&aws_account_dto.profile);
                Err(AppError::Config(concat2("AWS configuration not found for profile: ", d.as_str())))
            },
        }
    }
}

} // verus!

//! AWS account management rules: which fields each authentication method
//! requires when an account is created or updated, which regions a sync
//! scans, and how sync outcomes are reported.
use vstd::prelude::*;
use crate::errors::{validation_result, AppError};
use crate::json::{list_seq, JsonList, JsonValue};
use crate::text::{concat2, concat3, decimal, i64_decimal, owned, signed_decimal, str_eq, to_lowercase, u64_decimal, unicode_lower};

verus! {

/// The authentication fields of a new account.
pub struct AwsAccountCreateDto {
    pub auth_type: Option<String>,
    pub use_role: bool,
    pub role_arn: Option<String>,
    pub access_key_id: Option<String>,
    pub secret_access_key: Option<String>,
    pub profile: Option<String>,
    pub sso_profile: Option<String>,
}

/// The authentication fields of an account update.
pub struct AwsAccountUpdateDto {
    pub auth_type: Option<String>,
    pub use_role: bool,
    pub role_arn: Option<String>,
    pub access_key_id: Option<String>,
    pub secret_access_key: Option<String>,
    pub profile: Option<String>,
    pub sso_profile: Option<String>,
}

/// The outcome of a resource sync.
pub struct SyncResponse {
    pub success: bool,
    pub count: usize,
    pub message: String,
}

/// Account management.
pub struct AwsAccountService;

/// The field is absent or empty.
pub open spec fn blank(o: Option<String>) -> bool {
    match o {
        Some(s) => s@.len() == 0,
        None => true,
    }
}

/// The auth type as given, "auto" when absent.
pub open spec fn auth_text(o: Option<String>) -> Seq<char> {
    match o {
        Some(s) => s@,
        None => "auto"@,
    }
}

/// What a new account with the lower-cased auth type `auth` lacks, if
/// anything. An unknown type is read as "auto", which follows the legacy
/// flags: a role needs its ARN, otherwise both access keys are needed.
pub open spec fn create_auth_error(auth: Seq<char>, d: AwsAccountCreateDto) -> Option<Seq<char>> {
    if auth == "access_keys"@ {
        if blank(d.access_key_id) || blank(d.secret_access_key) {
            Some("access_keys auth requires access_key_id and secret_access_key"@)
        } else {
            None
        }
    } else if auth == "assume_role"@ {
        if blank(d.role_arn) {
            Some("assume_role auth requires role_arn"@)
        } else {
            None
        }
    } else if auth == "profile"@ {
        if blank(d.profile) {
            Some("profile auth requires profile name"@)
        } else {
            None
        }
    } else if auth == "sso"@ {
        if blank(d.sso_profile) && blank(d.profile) {
            Some("sso auth requires sso_profile or profile"@)
        } else {
            None
        }
    } else if auth == "web_identity"@ {
        if blank(d.role_arn) {
            Some("web_identity auth requires role_arn"@)
        } else {
            None
        }
    } else if auth == "instance_role"@ {
        None
    } else if d.use_role {
        if blank(d.role_arn) {
            Some("When use_role is true, role_arn is required"@)
        } else {
            None
        }
    } else if blank(d.access_key_id) || blank(d.secret_access_key) {
        Some("When not using a role, access_key_id and secret_access_key are required"@)
    } else {
        None
    }
}

/// What an account update with the lower-cased auth type `auth` lacks, if
/// anything. As on creation, except that the secret key may be left out to
/// keep the stored one.
pub open spec fn update_auth_error(auth: Seq<char>, d: AwsAccountUpdateDto) -> Option<Seq<char>> {
    if auth == "access_keys"@ {
        if blank(d.access_key_id) {
            Some("access_keys auth requires access_key_id on update"@)
        } else {
            None
        }
    } else if auth == "assume_role"@ {
        if blank(d.role_arn) {
            Some("assume_role auth requires role_arn"@)
        } else {
            None
        }
    } else if auth == "profile"@ {
        if blank(d.profile) {
            Some("profile auth requires profile name"@)
        } else {
            None
        }
    } else if auth == "sso"@ {
        if blank(d.sso_profile) && blank(d.profile) {
            Some("sso auth requires sso_profile or profile"@)
        } else {
            None
        }
    } else if auth == "web_identity"@ {
        if blank(d.role_arn) {
            Some("web_identity auth requires role_arn"@)
        } else {
            None
        }
    } else if auth == "instance_role"@ {
        None
    } else if d.use_role {
        if blank(d.role_arn) {
            Some("When use_role is true, role_arn is required"@)
        } else {
            None
        }
    } else if blank(d.access_key_id) {
        Some("When not using a role, access_key_id is required"@)
    } else {
        None
    }
}

fn is_blank(o: &Option<String>) -> (r: bool)
    ensures
        r == blank(*o),
{
    match o {
        Some(s) => s.unicode_len() == 0,
        None => true,
    }
}

fn invalid(msg: &str) -> (r: Result<(), AppError>)
    ensures
        validation_result(r, Some(msg@)),
{
    Err(AppError::Validation(owned(msg)))
}

impl AwsAccountService {
    /// The service; the stores it reads and writes are the caller's.
    pub fn new() -> (r: AwsAccountService) {
        AwsAccountService
    }

    /// Validate the authentication fields of a new account according to its
    /// auth type, compared case-insensitively.
    pub fn validate_create_auth(dto: &AwsAccountCreateDto) -> (r: Result<(), AppError>)
        ensures
            validation_result(r, create_auth_error(unicode_lower(auth_text(dto.auth_type)), *dto)),
    {
        let auth = match &dto.auth_type {
            Some(a) => to_lowercase(a.as_str()),
            None => to_lowercase("auto"),
        };
        Self::check_create_auth(auth.as_str(), dto)
    }

    /// Validate the authentication fields of a new account whose auth type,
    /// lower-cased, is `auth`.
    pub fn check_create_auth(auth: &str, dto: &AwsAccountCreateDto) -> (r: Result<(), AppError>)
        ensures
            validation_result(r, create_auth_error(auth@, *dto)),
    {
        if str_eq(auth, "access_keys") {
            if is_blank(&dto.access_key_id) || is_blank(&dto.secret_access_key) {
                return invalid("access_keys auth requires access_key_id and secret_access_key");
            }
        } else if str_eq(auth, "assume_role") {
            if is_blank(&dto.role_arn) {
                return invalid("assume_role auth requires role_arn");
            }
            // source_profile/profile optional; external_id/session_name optional
        } else if str_eq(auth, "profile") {
            if is_blank(&dto.profile) {
                return invalid("profile auth requires profile name");
            }
        } else if str_eq(auth, "sso") {
            // Accept sso_profile or profile as the profile name configured for SSO
            if is_blank(&dto.sso_profile) && is_blank(&dto.profile) {
                return invalid("sso auth requires sso_profile or profile");
            }
        } else if str_eq(auth, "web_identity") {
            if is_blank(&dto.role_arn) {
                return invalid("web_identity auth requires role_arn");
            }
            // token file optional (may come from env); session_name optional
        } else if str_eq(auth, "instance_role") {
            // No specific fields required
        } else if dto.use_role {
            // Back-compat with legacy flags
            if is_blank(&dto.role_arn) {
                return invalid("When use_role is true, role_arn is required");
            }
        } else if is_blank(&dto.access_key_id) || is_blank(&dto.secret_access_key) {
            return invalid("When not using a role, access_key_id and secret_access_key are required");
        }
        Ok(())
    }

    /// Validate the authentication fields of an account update according to
    /// its auth type, compared case-insensitively.
    pub fn validate_update_auth(dto: &AwsAccountUpdateDto) -> (r: Result<(), AppError>)
        ensures
            validation_result(r, update_auth_error(unicode_lower(auth_text(dto.auth_type)), *dto)),
    {
        let auth = match &dto.auth_type {
            Some(a) => to_lowercase(a.as_str()),
            None => to_lowercase("auto"),
        };
        Self::check_update_auth(auth.as_str(), dto)
    }

    /// Validate the authentication fields of an account update whose auth
    /// type, lower-cased, is `auth`.
    pub fn check_update_auth(auth: &str, dto: &AwsAccountUpdateDto) -> (r: Result<(), AppError>)
        ensures
            validation_result(r, update_auth_error(auth@, *dto)),
    {
        if str_eq(auth, "access_keys") {
            // secret_access_key may be omitted to keep the existing one
            if is_blank(&dto.access_key_id) {
                return invalid("access_keys auth requires access_key_id on update");
            }
        } else if str_eq(auth, "assume_role") {
            if is_blank(&dto.role_arn) {
                return invalid("assume_role auth requires role_arn");
            }
        } else if str_eq(auth, "profile") {
            if is_blank(&dto.profile) {
                return invalid("profile auth requires profile name");
            }
        } else if str_eq(auth, "sso") {
            if is_blank(&dto.sso_profile) && is_blank(&dto.profile) {
                return invalid("sso auth requires sso_profile or profile");
            }
        } else if str_eq(auth, "web_identity") {
            if is_blank(&dto.role_arn) {
                return invalid("web_identity auth requires role_arn");
            }
        } else if str_eq(auth, "instance_role") {
            // No specific fields required
        } else if dto.use_role {
            // Back-compat with legacy flags
            if is_blank(&dto.role_arn) {
                return invalid("When use_role is true, role_arn is required");
            }
        } else if is_blank(&dto.access_key_id) {
            return invalid("When not using a role, access_key_id is required");
        }
        Ok(())
    }
}

// ---------------------------------------------------------------------------
// Which regions a sync scans, and how its outcome reads.
// ---------------------------------------------------------------------------

/// The texts held by the strings among `items`, in order.
pub open spec fn strings_of(items: Seq<JsonValue>) -> Seq<Seq<char>>
    decreases items.len(),
{
    if items.len() == 0 {
        Seq::empty()
    } else {
        (match items[0].spec_str() {
            Some(s) => seq![s],
            None => Seq::empty(),
        }) + strings_of(items.drop_first())
    }
}

/// The region names that sync-run metadata lists under "regions".
pub open spec fn metadata_regions(meta: JsonValue) -> Seq<Seq<char>> {
    match meta.spec_get("regions"@) {
        Some(v) => match v.spec_array() {
            Some(items) => strings_of(items),
            None => Seq::empty(),
        },
        None => Seq::empty(),
    }
}

/// The texts of a list of strings.
pub open spec fn views(v: Seq<String>) -> Seq<Seq<char>> {
    v.map_values(|s: String| s@)
}

/// The run's metadata asks for every region (`all_regions: true`).
pub open spec fn asks_all_regions(meta: Option<JsonValue>) -> bool {
    match meta {
        Some(m) => match m.spec_get("all_regions"@) {
            Some(v) => v.spec_bool() == Some(true),
            None => false,
        },
        None => false,
    }
}

/// The regions a sync scans: those its run's metadata lists, when it lists
/// any; else every region, when the metadata asks for all of them; else the
/// account's own regions; `None` means every region.
pub open spec fn region_scope_of(
    meta: Option<JsonValue>,
    account_regions: Option<Seq<Seq<char>>>,
) -> Option<Seq<Seq<char>>> {
    let listed = match meta {
        Some(m) => metadata_regions(m),
        None => Seq::empty(),
    };
    if listed.len() > 0 {
        Some(listed)
    } else if asks_all_regions(meta) {
        None
    } else {
        account_regions
    }
}

/// The metadata, when there is one.
pub open spec fn meta_of(o: Option<&JsonValue>) -> Option<JsonValue> {
    match o {
        Some(m) => Some(*m),
        None => None,
    }
}

/// The texts of optional region names.
pub open spec fn regions_of(o: Option<Vec<String>>) -> Option<Seq<Seq<char>>> {
    match o {
        Some(v) => Some(views(v@)),
        None => None,
    }
}

pub(crate) fn collect_strings(l: &JsonList, out: &mut Vec<String>)
    ensures
        views(final(out)@) == views(old(out)@) + strings_of(list_seq(*l)),
    decreases l,
{
    match l {
        JsonList::Nil => {
            assert(views(out@) =~= views(out@) + strings_of(list_seq(*l)));
        },
        JsonList::Cons(v, rest) => {
            let ghost before = out@;
            assert(list_seq(*l).drop_first() =~= list_seq(**rest));
            match v.as_str() {
                Some(s) => {
                    out.push(s.clone());
                },
                None => {},
            }
            let ghost mid = out@;
            assert(views(mid) =~= views(before) + match v.spec_str() {
                Some(s) => seq![s],
                None => Seq::<Seq<char>>::empty(),
            });
            collect_strings(&**rest, out);
            assert(views(out@) =~= views(before) + strings_of(list_seq(*l)));
        },
    }
}

/// The regions a sync scans, from the metadata of its run (when the run is
/// known) and the account's configured regions; `None` means every region.
pub fn region_scope(run_metadata: Option<&JsonValue>, account_regions: &Option<Vec<String>>) -> (r: Option<
    Vec<String>,
>)
    ensures
        match r {
            Some(v) => region_scope_of(meta_of(run_metadata), regions_of(*account_regions)) == Some(views(v@)),
            None => region_scope_of(meta_of(run_metadata), regions_of(*account_regions)) is None,
        },
{
    let mut listed: Vec<String> = Vec::new();
    if let Some(meta) = run_metadata {
        if let Some(v) = meta.get("regions") {
            if let JsonValue::Array(items) = v {
                collect_strings(&**items, &mut listed);
            }
        }
    }
    assert(views(listed@) == match meta_of(run_metadata) {
        Some(m) => metadata_regions(m),
        None => Seq::empty(),
    });
    if listed.len() > 0 {
        return Some(listed);
    }
    if let Some(meta) = run_metadata {
        if let Some(v) = meta.get("all_regions") {
            if v.as_bool() == Some(true) {
                return None;
            }
        }
    }
    match account_regions {
        Some(a) => Some(a.clone()),
        None => None,
    }
}

/// The resources synced over the regions that succeeded.
pub open spec fn synced_total(rs: Seq<Option<usize>>) -> int
    decreases rs.len(),
{
    if rs.len() == 0 {
        0
    } else {
        synced_total(rs.drop_last()) + match rs.last() {
            Some(n) => n as int,
            None => 0,
        }
    }
}

/// The number of regions that failed.
pub open spec fn failed_regions(rs: Seq<Option<usize>>) -> int
    decreases rs.len(),
{
    if rs.len() == 0 {
        0
    } else {
        failed_regions(rs.drop_last()) + if rs.last() is None {
            1int
        } else {
            0
        }
    }
}

proof fn lemma_tally_bounds(rs: Seq<Option<usize>>)
    ensures
        synced_total(rs) >= 0,
        0 <= failed_regions(rs) <= rs.len(),
    decreases rs.len(),
{
    if rs.len() > 0 {
        lemma_tally_bounds(rs.drop_last());
    }
}

proof fn lemma_tally_prefix(rs: Seq<Option<usize>>, i: int)
    requires
        0 <= i <= rs.len(),
    ensures
        synced_total(rs.take(i)) <= synced_total(rs),
        failed_regions(rs.take(i)) <= failed_regions(rs),
    decreases rs.len(),
{
    if i == rs.len() {
        assert(rs.take(i) =~= rs);
    } else {
        lemma_tally_prefix(rs.drop_last(), i);
        assert(rs.drop_last().take(i) =~= rs.take(i));
    }
}

/// Adds up per-region sync outcomes (`Some(count)` for a region that
/// synced, `None` for one that failed): the resources synced, and the
/// number of failed regions.
pub fn tally_region_results(results: &[Option<usize>]) -> (r: (usize, i32))
    requires
        synced_total(results@) <= usize::MAX,
        results@.len() <= i32::MAX,
    ensures
        r.0 == synced_total(results@),
        r.1 == failed_regions(results@),
{
    let mut total: usize = 0;
    let mut failures: i32 = 0;
    for i in 0..results.len()
        invariant
            total == synced_total(results@.take(i as int)),
            failures == failed_regions(results@.take(i as int)),
            synced_total(results@) <= usize::MAX,
            results@.len() <= i32::MAX,
    {
        proof {
            lemma_tally_prefix(results@, i + 1);
            lemma_tally_bounds(results@.take(i + 1));
            lemma_tally_bounds(results@.take(i as int));
            assert(results@.take(i + 1).drop_last() =~= results@.take(i as int));
        }
        match results[i] {
            Some(count) => {
                total = total + count;
            },
            None => {
                failures = failures + 1;
            },
        }
    }
    assert(results@.take(results@.len() as int) =~= results@);
    (total, failures)
}

/// The outcome of one account's multi-region sync.
pub open spec fn region_sync_message(total: usize, regions: usize, sync_id: Seq<char>, failures: i32) -> Seq<char> {
    "Synced "@ + decimal(total as nat) + " resources across "@ + decimal(regions as nat) + " region(s) (sync_id: "@
        + sync_id + ", failures: "@ + signed_decimal(failures as int) + ")"@
}

/// The sync response of one account: a success when no region failed.
pub fn region_sync_summary(total: usize, regions: usize, sync_id: &str, failures: i32) -> (r: SyncResponse)
    ensures
        r.success == (failures == 0),
        r.count == total,
        r.message@ == region_sync_message(total, regions, sync_id@, failures),
{
    let mut message = concat2("Synced ", u64_decimal(total as u64).as_str());
    message.append(" resources across ");
    message.append(u64_decimal(regions as u64).as_str());
    message.append(" region(s) (sync_id: ");
    message.append(sync_id);
    message.append(", failures: ");
    message.append(i64_decimal(failures as i64).as_str());
    message.append(")");
    SyncResponse { success: failures == 0, count: total, message }
}

/// The texts joined with `sep` between them.
pub open spec fn joined(xs: Seq<Seq<char>>, sep: Seq<char>) -> Seq<char>
    decreases xs.len(),
{
    if xs.len() == 0 {
        Seq::empty()
    } else if xs.len() == 1 {
        xs[0]
    } else {
        joined(xs.drop_last(), sep) + sep + xs.last()
    }
}

/// The message of a sync over all accounts.
pub open spec fn accounts_sync_message(accounts: usize, total: usize, failed: Seq<Seq<char>>) -> Seq<char> {
    if accounts == 0 {
        "No accounts found to sync"@
    } else if failed.len() == 0 {
        "Successfully synced "@ + decimal(total as nat) + " resources from all accounts"@
    } else {
        "Synced "@ + decimal(total as nat) + " resources. Failed to sync accounts: "@ + joined(failed, ", "@)
    }
}

/// The sync response over all accounts: `accounts` is how many there were,
/// `total` the resources synced, `failed` the accounts that failed.
pub fn accounts_sync_summary(accounts: usize, total: usize, failed: &Vec<String>) -> (r: SyncResponse)
    ensures
        r.success == (accounts == 0 || failed@.len() == 0),
        r.count == (if accounts == 0 {
            0
        } else {
            total
        }),
        r.message@ == accounts_sync_message(accounts, total, views(failed@)),
{
    if accounts == 0 {
        return SyncResponse { success: true, count: 0, message: owned("No accounts found to sync") };
    }
    let shown = u64_decimal(total as u64);
    if failed.len() == 0 {
        return SyncResponse {
            success: true,
            count: total,
            message: concat3("Successfully synced ", shown.as_str(), " resources from all accounts"),
        };
    }
    let mut list = String::new();
    for i in 0..failed.len()
        invariant
            list@ == joined(views(failed@).take(i as int), ", "@),
    {
        let ghost before = list@;
        if i > 0 {
            list.append(", ");
        }
        list.append(failed[i].as_str());
        proof {
            let t = views(failed@).take(i + 1);
            assert(t.drop_last() =~= views(failed@).take(i as int));
            if i == 0 {
                assert(before =~= Seq::<char>::empty());
                assert(list@ =~= t[0]);
            }
        }
    }
    assert(views(failed@).take(failed@.len() as int) =~= views(failed@));
    let mut message = concat3("Synced ", shown.as_str(), " resources. Failed to sync accounts: ");
    message.append(list.as_str());
    SyncResponse { success: false, count: total, message }
}

} // verus!

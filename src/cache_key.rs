use std::collections::hash_map::DefaultHasher;
use std::hash::{Hash, Hasher};

use vstd::prelude::*;
use vstd::string::StringExecFns;

use crate::location::PathItemLocation;
use crate::outcome::{LoadingGaugeType, PathfindingInput};

verus! {

/// The decimal digit `d`.
pub open spec fn digit(d: nat) -> char {
    if d == 0 {
        '0'
    } else if d == 1 {
        '1'
    } else if d == 2 {
        '2'
    } else if d == 3 {
        '3'
    } else if d == 4 {
        '4'
    } else if d == 5 {
        '5'
    } else if d == 6 {
        '6'
    } else if d == 7 {
        '7'
    } else if d == 8 {
        '8'
    } else {
        '9'
    }
}

/// The decimal writing of `n`, without leading zeros.
pub open spec fn decimal_nat(n: nat) -> Seq<char>
    decreases n,
{
    if n < 10 {
        seq![digit(n)]
    } else {
        decimal_nat(n / 10) + seq![digit(n % 10)]
    }
}

/// The decimal writing of `i`, preceded by `-` when negative.
pub open spec fn decimal(i: int) -> Seq<char> {
    if i < 0 {
        seq!['-'] + decimal_nat((-i) as nat)
    } else {
        decimal_nat(i as nat)
    }
}

/// A waypoint, with its strings seen as their characters.
pub enum PathItemView {
    TrackOffset { track: Seq<char>, offset: u64 },
    OperationalPointId { operational_point: Seq<char> },
    OperationalPointDescription { trigram: Seq<char>, secondary_code: Option<Seq<char>> },
    OperationalPointUic { uic: u32, secondary_code: Option<Seq<char>> },
}

impl View for PathItemLocation {
    type V = PathItemView;

    open spec fn view(&self) -> PathItemView {
        match *self {
            PathItemLocation::TrackOffset(t) => PathItemView::TrackOffset {
                track: t.track@,
                offset: t.offset,
            },
            PathItemLocation::OperationalPointId { operational_point } => {
                PathItemView::OperationalPointId { operational_point: operational_point@ }
            },
            PathItemLocation::OperationalPointDescription { trigram, secondary_code } => {
                PathItemView::OperationalPointDescription {
                    trigram: trigram@,
                    secondary_code: crate::location::opt_view(secondary_code),
                }
            },
            PathItemLocation::OperationalPointUic { uic, secondary_code } => {
                PathItemView::OperationalPointUic {
                    uic,
                    secondary_code: crate::location::opt_view(secondary_code),
                }
            },
        }
    }
}

/// A pathfinding request, with its strings seen as their characters.
pub struct PathfindingInputView {
    pub loading_gauge: LoadingGaugeType,
    pub is_thermal: bool,
    pub electrification: Seq<Seq<char>>,
    pub signaling_systems: Seq<Seq<char>>,
    pub path_items: Seq<PathItemView>,
}

impl View for PathfindingInput {
    type V = PathfindingInputView;

    open spec fn view(&self) -> PathfindingInputView {
        PathfindingInputView {
            loading_gauge: self.rolling_stock_loading_gauge,
            is_thermal: self.rolling_stock_is_thermal,
            electrification: self.rolling_stock_supported_electrification@.map_values(
                |s: String| s@,
            ),
            signaling_systems: self.rolling_stock_supported_signaling_systems@.map_values(
                |s: String| s@,
            ),
            path_items: self.path_items@.map_values(|p: PathItemLocation| p@),
        }
    }
}

/// The digest that std's `DefaultHasher` gives of a request.
pub uninterp spec fn request_fingerprint(input: PathfindingInputView) -> u64;

/// Relies on std's `DefaultHasher::new`, fed through the derived `Hash` of
/// the request: every hasher it makes starts from the same keys, so the
/// digest depends on the request's contents alone.
#[verifier::external_body]
fn fingerprint(input: &PathfindingInput) -> (r: u64)
    ensures
        r == request_fingerprint(input@),
{
    let mut hasher = DefaultHasher::new();
    input.hash(&mut hasher);
    hasher.finish()
}

/// Relies on the `Display` of `i64`, through `to_string`: its decimal
/// writing, preceded by `-` when negative.
#[verifier::external_body]
fn i64_decimal(n: i64) -> (r: String)
    ensures
        r@ == decimal(n as int),
{
    n.to_string()
}

/// Relies on the `Display` of `u64`, through `to_string`: its decimal
/// writing.
#[verifier::external_body]
fn u64_decimal(n: u64) -> (r: String)
    ensures
        r@ == decimal(n as int),
{
    n.to_string()
}

/// The cache key of a request: it binds the request to one version of the
/// application and one version of one infrastructure.
pub open spec fn cache_key(
    app_version: Seq<char>,
    infra_id: int,
    infra_version: Seq<char>,
    fingerprint: u64,
) -> Seq<char> {
    app_version + seq!['.'] + decimal(infra_id) + seq!['.'] + infra_version + seq!['.'] + decimal(
        fingerprint as int,
    )
}

/// The cache key binding a request, by its fingerprint, to one version of
/// the application and one version of one infrastructure:
/// `{app_version}.{infra}.{infra_version}.{fingerprint}`.
pub fn format_cache_key(
    app_version: &str,
    infra: i64,
    infra_version: &String,
    fingerprint: u64,
) -> (r: String)
    ensures
        r@ == cache_key(app_version@, infra as int, infra_version@, fingerprint),
{
    let infra_text = i64_decimal(infra);
    let fingerprint_text = u64_decimal(fingerprint);
    proof {
        reveal_strlit(".");
    }
    let mut key = String::from_str(app_version);
    key.append(".");
    key.append(infra_text.as_str());
    key.append(".");
    key.append(infra_version.as_str());
    key.append(".");
    key.append(fingerprint_text.as_str());
    key
}

/// The key under which the outcome of `path_input` is cached. A result is
/// computed again when the request differs, when the infrastructure has
/// been modified, or when the application has been updated.
pub fn path_input_hash(
    app_version: &str,
    infra: i64,
    infra_version: &String,
    path_input: &PathfindingInput,
) -> (r: String)
    ensures
        r@ == cache_key(app_version@, infra as int, infra_version@, request_fingerprint(path_input@)),
{
    let hash_path_input = fingerprint(path_input);
    format_cache_key(app_version, infra, infra_version, hash_path_input)
}

proof fn lemma_decimal_nat_shape(n: nat)
    ensures
        decimal_nat(n).len() >= 1,
        n >= 10 ==> decimal_nat(n).len() >= 2,
        forall|k: int| 0 <= k < decimal_nat(n).len() ==> #[trigger] decimal_nat(n)[k] != '.',
    decreases n,
{
    if n >= 10 {
        lemma_decimal_nat_shape(n / 10);
        let s = decimal_nat(n / 10) + seq![digit(n % 10)];
        assert forall|k: int| 0 <= k < s.len() implies #[trigger] s[k] != '.' by {
            if k < decimal_nat(n / 10).len() {
                assert(s[k] == decimal_nat(n / 10)[k]);
            }
        }
    }
}

proof fn lemma_decimal_nat_injective(a: nat, b: nat)
    requires
        decimal_nat(a) == decimal_nat(b),
    ensures
        a == b,
    decreases a,
{
    lemma_decimal_nat_shape(a);
    lemma_decimal_nat_shape(b);
    if a >= 10 && b >= 10 {
        let sa = decimal_nat(a);
        assert(sa.drop_last() =~= decimal_nat(a / 10));
        assert(decimal_nat(b).drop_last() =~= decimal_nat(b / 10));
        assert(sa.last() == digit(a % 10));
        assert(decimal_nat(b).last() == digit(b % 10));
        lemma_decimal_nat_injective(a / 10, b / 10);
        assert(a % 10 == b % 10);
        assert(a == 10 * (a / 10) + a % 10) by (nonlinear_arith);
        assert(b == 10 * (b / 10) + b % 10) by (nonlinear_arith);
    } else if a < 10 && b < 10 {
        assert(decimal_nat(a)[0] == digit(a));
        assert(decimal_nat(b)[0] == digit(b));
    }
}

/// Deriving a cache key is deterministic: the same application version,
/// infrastructure and request always give the same key.
pub proof fn lemma_cache_key_deterministic(
    app_version: Seq<char>,
    infra_id: int,
    infra_version: Seq<char>,
    request1: PathfindingInputView,
    request2: PathfindingInputView,
)
    requires
        request1 == request2,
    ensures
        cache_key(app_version, infra_id, infra_version, request_fingerprint(request1)) == cache_key(
            app_version,
            infra_id,
            infra_version,
            request_fingerprint(request2),
        ),
{
}

/// Requests whose fingerprints differ never share a cache key, whatever
/// the versions and infrastructures they are bound to.
pub proof fn lemma_cache_key_separates_fingerprints(
    app1: Seq<char>,
    infra1: int,
    version1: Seq<char>,
    fingerprint1: u64,
    app2: Seq<char>,
    infra2: int,
    version2: Seq<char>,
    fingerprint2: u64,
)
    requires
        fingerprint1 != fingerprint2,
    ensures
        cache_key(app1, infra1, version1, fingerprint1) != cache_key(
            app2,
            infra2,
            version2,
            fingerprint2,
        ),
{
    let p1 = app1 + seq!['.'] + decimal(infra1) + seq!['.'] + version1 + seq!['.'];
    let p2 = app2 + seq!['.'] + decimal(infra2) + seq!['.'] + version2 + seq!['.'];
    let d1 = decimal_nat(fingerprint1 as nat);
    let d2 = decimal_nat(fingerprint2 as nat);
    let k1 = cache_key(app1, infra1, version1, fingerprint1);
    let k2 = cache_key(app2, infra2, version2, fingerprint2);
    assert(k1 =~= p1 + d1);
    assert(k2 =~= p2 + d2);
    lemma_decimal_nat_shape(fingerprint1 as nat);
    lemma_decimal_nat_shape(fingerprint2 as nat);
    if k1 == k2 {
        assert(p1[p1.len() - 1] == '.');
        assert(p2[p2.len() - 1] == '.');
        if d1.len() == d2.len() {
            assert(d1 =~= k1.subrange(p1.len() as int, k1.len() as int));
            assert(d2 =~= k2.subrange(p2.len() as int, k2.len() as int));
            lemma_decimal_nat_injective(fingerprint1 as nat, fingerprint2 as nat);
        } else if d1.len() < d2.len() {
            let q = p1.len() - 1;
            assert(k1[q] == '.');
            assert(k2[q] == d2[q - p2.len()]);
        } else {
            let q = p2.len() - 1;
            assert(k2[q] == '.');
            assert(k1[q] == d1[q - p1.len()]);
        }
    }
}

} // verus!

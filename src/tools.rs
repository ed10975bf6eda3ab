//! Helpers for the text forms that users type.
use crate::enums::{CaseStatus, Category, CategorySet, ReporterType};
use crate::error::{NameParseError, NetworkParseError};
use vstd::prelude::*;
use vstd::string::StrSliceExecFns;

verus! {

/// Whether `i` is the position of the first `/` in `p`.
pub open spec fn is_first_slash(p: Seq<char>, i: int) -> bool {
    0 <= i < p.len() && p[i] == '/' && forall|j: int| 0 <= j < i ==> p[j] != '/'
}

/// `p` split at its first `/`, the slash dropped; `None` where `p` has none.
pub open spec fn split_network_path(p: Seq<char>) -> Option<(Seq<char>, Seq<char>)> {
    if exists|i: int| is_first_slash(p, i) {
        let i = choose|i: int| is_first_slash(p, i);
        Some((p.take(i), p.skip(i + 1)))
    } else {
        None
    }
}

/// Splits `"community_name/network_name"` at its first `/` into the
/// community's name and the network's name; the network's name keeps any
/// further `/`.
pub fn parse_network_path(path: &str) -> (r: Result<(String, String), NetworkParseError>)
    ensures
        match split_network_path(path@) {
            Some(parts) => r matches Ok(x) && x.0@ == parts.0 && x.1@ == parts.1,
            None => r == Err::<(String, String), NetworkParseError>(NetworkParseError::InvalidNetworkName),
        },
        r is Err <==> !path@.contains('/'),
{
    let len = path.unicode_len();
    let mut i: usize = 0;
    while i < len
        invariant
            len == path@.len(),
            i <= len,
            forall|j: int| 0 <= j < i ==> path@[j] != '/',
        decreases len - i,
    {
        if path.get_char(i) == '/' {
            let community = path.substring_char(0, i).to_owned();
            let network = path.substring_char(i + 1, len).to_owned();
            proof {
                assert(is_first_slash(path@, i as int));
                let k = choose|k: int| is_first_slash(path@, k);
                assert(k == i) by {
                    if k < i {
                        assert(path@[k] != '/');
                    } else if k > i {
                        assert(path@[i as int] != '/');
                    }
                }
                assert(community@ =~= path@.take(i as int));
                assert(network@ =~= path@.skip(i + 1));
                assert(path@.contains('/'));
            }
            return Ok((community, network));
        }
        i = i + 1;
    }
    proof {
        assert(!exists|k: int| is_first_slash(path@, k));
    }
    Err(NetworkParseError::InvalidNetworkName)
}

/// Whether two strings hold the same characters.
pub fn same_text(a: &str, b: &str) -> (r: bool)
    ensures
        r == (a@ == b@),
{
    let n = a.unicode_len();
    if n != b.unicode_len() {
        return false;
    }
    let mut i: usize = 0;
    while i < n
        invariant
            n == a@.len(),
            n == b@.len(),
            i <= n,
            forall|j: int| 0 <= j < i ==> a@[j] == b@[j],
        decreases n - i,
    {
        if a.get_char(i) != b.get_char(i) {
            return false;
        }
        i = i + 1;
    }
    assert(a@ =~= b@);
    true
}

/// The reporter level named `s`.
pub open spec fn reporter_type_named(s: Seq<char>) -> Option<ReporterType> {
    if s == "Inactive"@ {
        Some(ReporterType::Inactive)
    } else if s == "Tracer"@ {
        Some(ReporterType::Tracer)
    } else if s == "Full"@ {
        Some(ReporterType::Full)
    } else if s == "Authority"@ {
        Some(ReporterType::Authority)
    } else {
        None
    }
}

/// Reads a reporter level by its name.
pub fn reporter_type_from_string(input: &str) -> (r: Result<ReporterType, NameParseError>)
    ensures
        r == match reporter_type_named(input@) {
            Some(t) => Ok(t),
            None => Err(NameParseError::UnknownReporterType),
        },
{
    if same_text(input, "Inactive") {
        Ok(ReporterType::Inactive)
    } else if same_text(input, "Tracer") {
        Ok(ReporterType::Tracer)
    } else if same_text(input, "Full") {
        Ok(ReporterType::Full)
    } else if same_text(input, "Authority") {
        Ok(ReporterType::Authority)
    } else {
        Err(NameParseError::UnknownReporterType)
    }
}

/// The case status named `s`.
pub open spec fn case_status_named(s: Seq<char>) -> Option<CaseStatus> {
    if s == "Open"@ {
        Some(CaseStatus::Open)
    } else if s == "Closed"@ {
        Some(CaseStatus::Closed)
    } else {
        None
    }
}

/// Reads a case status by its name.
pub fn case_status_from_string(input: &str) -> (r: Result<CaseStatus, NameParseError>)
    ensures
        r == match case_status_named(input@) {
            Some(t) => Ok(t),
            None => Err(NameParseError::UnknownCaseStatus),
        },
{
    if same_text(input, "Open") {
        Ok(CaseStatus::Open)
    } else if same_text(input, "Closed") {
        Ok(CaseStatus::Closed)
    } else {
        Err(NameParseError::UnknownCaseStatus)
    }
}

/// The category named `s`.
pub open spec fn category_named(s: Seq<char>) -> Option<Category> {
    if s == "Safe"@ {
        Some(Category::Safe)
    } else if s == "WalletService"@ {
        Some(Category::WalletService)
    } else if s == "MerchantService"@ {
        Some(Category::MerchantService)
    } else if s == "MiningPool"@ {
        Some(Category::MiningPool)
    } else if s == "LowRiskExchange"@ {
        Some(Category::LowRiskExchange)
    } else if s == "MediumRiskExchange"@ {
        Some(Category::MediumRiskExchange)
    } else if s == "DeFi"@ {
        Some(Category::DeFi)
    } else if s == "OTCBroker"@ {
        Some(Category::OTCBroker)
    } else if s == "ATM"@ {
        Some(Category::ATM)
    } else if s == "Gambling"@ {
        Some(Category::Gambling)
    } else if s == "IllicitOrganization"@ {
        Some(Category::IllicitOrganization)
    } else if s == "Mixer"@ {
        Some(Category::Mixer)
    } else if s == "DarknetService"@ {
        Some(Category::DarknetService)
    } else if s == "Scam"@ {
        Some(Category::Scam)
    } else if s == "Ransomware"@ {
        Some(Category::Ransomware)
    } else if s == "Theft"@ {
        Some(Category::Theft)
    } else if s == "Counterfeit"@ {
        Some(Category::Counterfeit)
    } else if s == "TerroristFinancing"@ {
        Some(Category::TerroristFinancing)
    } else if s == "Sanctions"@ {
        Some(Category::Sanctions)
    } else if s == "ChildAbuse"@ {
        Some(Category::ChildAbuse)
    } else {
        None
    }
}

/// Reads a category by its name.
pub fn category_from_string(input: &str) -> (r: Result<Category, NameParseError>)
    ensures
        r == match category_named(input@) {
            Some(c) => Ok(c),
            None => Err(NameParseError::UnknownCategory),
        },
{
    if same_text(input, "Safe") {
        Ok(Category::Safe)
    } else if same_text(input, "WalletService") {
        Ok(Category::WalletService)
    } else if same_text(input, "MerchantService") {
        Ok(Category::MerchantService)
    } else if same_text(input, "MiningPool") {
        Ok(Category::MiningPool)
    } else if same_text(input, "LowRiskExchange") {
        Ok(Category::LowRiskExchange)
    } else if same_text(input, "MediumRiskExchange") {
        Ok(Category::MediumRiskExchange)
    } else if same_text(input, "DeFi") {
        Ok(Category::DeFi)
    } else if same_text(input, "OTCBroker") {
        Ok(Category::OTCBroker)
    } else if same_text(input, "ATM") {
        Ok(Category::ATM)
    } else if same_text(input, "Gambling") {
        Ok(Category::Gambling)
    } else if same_text(input, "IllicitOrganization") {
        Ok(Category::IllicitOrganization)
    } else if same_text(input, "Mixer") {
        Ok(Category::Mixer)
    } else if same_text(input, "DarknetService") {
        Ok(Category::DarknetService)
    } else if same_text(input, "Scam") {
        Ok(Category::Scam)
    } else if same_text(input, "Ransomware") {
        Ok(Category::Ransomware)
    } else if same_text(input, "Theft") {
        Ok(Category::Theft)
    } else if same_text(input, "Counterfeit") {
        Ok(Category::Counterfeit)
    } else if same_text(input, "TerroristFinancing") {
        Ok(Category::TerroristFinancing)
    } else if same_text(input, "Sanctions") {
        Ok(Category::Sanctions)
    } else if same_text(input, "ChildAbuse") {
        Ok(Category::ChildAbuse)
    } else {
        Err(NameParseError::UnknownCategory)
    }
}

/// The set of the categories named in `names`, or `None` where one of them
/// names no category.
pub open spec fn categories_named(names: Seq<Seq<char>>) -> Option<CategorySet>
    decreases names.len(),
{
    if names.len() == 0 {
        Some(0)
    } else {
        match (categories_named(names.drop_last()), category_named(names.last())) {
            (Some(set), Some(c)) => Some(set | c.spec_mask()),
            _ => None,
        }
    }
}

/// Reads a set of categories from their names; the first unknown name fails
/// the whole set.
pub fn parse_arg_categories(names: &Vec<String>) -> (r: Result<CategorySet, NameParseError>)
    ensures
        r == match categories_named(names@.map_values(|n: String| n@)) {
            Some(set) => Ok(set),
            None => Err(NameParseError::UnknownCategory),
        },
{
    let ghost views = names@.map_values(|n: String| n@);
    let mut set: CategorySet = 0;
    let mut i: usize = 0;
    while i < names.len()
        invariant
            i <= names.len(),
            views == names@.map_values(|n: String| n@),
            categories_named(views.take(i as int)) == Some(set),
        decreases names.len() - i,
    {
        proof {
            assert(views.take(i + 1).drop_last() =~= views.take(i as int));
            assert(views.take(i + 1).last() == names[i as int]@);
        }
        match category_from_string(names[i].as_str()) {
            Ok(c) => {
                set = set | c.mask();
            },
            Err(e) => {
                proof {
                    lemma_unknown_name_poisons(views, i as int + 1);
                    assert(views.take(names.len() as int) =~= views);
                }
                return Err(e);
            },
        }
        i = i + 1;
    }
    assert(views.take(names.len() as int) =~= views);
    Ok(set)
}

/// Once a prefix of the names holds an unknown one, so does every longer prefix.
proof fn lemma_unknown_name_poisons(views: Seq<Seq<char>>, k: int)
    requires
        0 < k <= views.len(),
        categories_named(views.take(k)) is None,
    ensures
        categories_named(views) is None,
    decreases views.len() - k,
{
    if k < views.len() {
        assert(views.take(k + 1).drop_last() =~= views.take(k));
        lemma_unknown_name_poisons(views, k + 1);
    } else {
        assert(views.take(k) =~= views);
    }
}

} // verus!

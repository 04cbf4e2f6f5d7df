//! Release-asset resolution: parse a release-metadata body into its asset
//! list, and select the installer asset by the fixed name predicate —
//! contains the architecture marker, ends with the executable suffix, and is
//! not the self-extracting variant. Selection is verified end to end; only
//! the JSON decoding itself is delegated to an outside parser.

use vstd::prelude::*;
use crate::errors::StepError;
use crate::text::{contains_seq, ends_with_seq, str_contains, str_ends_with};

verus! {

/// What the selector reads of one release asset: its name and its download
/// URL, either of which the metadata may omit.
pub type AssetFields = (Option<Seq<char>>, Option<Seq<char>>);

/// One release asset as handed to the selector.
pub struct AssetRecord {
    pub name: Option<String>,
    pub url: Option<String>,
}

/// The asset the selector settled on.
pub struct SelectedAsset {
    pub name: String,
    pub url: String,
}

/// The selection predicate on an asset name.
pub open spec fn spec_name_matches(name: Seq<char>) -> bool {
    contains_seq(name, "x86_64"@) && ends_with_seq(name, ".exe"@) && !ends_with_seq(
        name,
        "sfx.exe"@,
    )
}

/// An asset with no name never matches; otherwise the name predicate
/// decides.
pub open spec fn spec_fields_match(f: AssetFields) -> bool {
    match f.0 {
        Some(name) => spec_name_matches(name),
        None => false,
    }
}

/// The name and URL fields of one record.
pub open spec fn asset_fields(a: AssetRecord) -> AssetFields {
    (
        match a.name {
            Some(s) => Some(s@),
            None => None,
        },
        match a.url {
            Some(s) => Some(s@),
            None => None,
        },
    )
}

/// The fields of a whole record list.
pub open spec fn assets_fields(s: Seq<AssetRecord>) -> Seq<AssetFields> {
    s.map_values(|a: AssetRecord| asset_fields(a))
}

/// The index of the first matching asset, or the list length when none
/// matches.
pub open spec fn spec_first_match(fields: Seq<AssetFields>) -> int
    decreases fields.len(),
{
    if fields.len() == 0 {
        0
    } else if spec_fields_match(fields[0]) {
        0
    } else {
        1 + spec_first_match(fields.drop_first())
    }
}

/// `spec_first_match` is exactly the index of the first matching entry.
pub proof fn lemma_first_match_is(fields: Seq<AssetFields>, i: int)
    requires
        0 <= i <= fields.len(),
        forall|j: int| 0 <= j < i ==> !spec_fields_match(fields[j]),
        i < fields.len() ==> spec_fields_match(fields[i]),
    ensures
        spec_first_match(fields) == if i < fields.len() {
            i
        } else {
            fields.len() as int
        },
    decreases fields.len(),
{
    if fields.len() > 0 && i > 0 {
        assert(!spec_fields_match(fields[0]));
        lemma_first_match_is(fields.drop_first(), i - 1);
    }
}

/// Selection is deterministic and positional: on a fixed list it settles on
/// the first entry satisfying the predicate, whatever follows it.
pub proof fn lemma_selector_picks_first_match(fields: Seq<AssetFields>, i: int)
    requires
        0 <= i < fields.len(),
        spec_fields_match(fields[i]),
        forall|j: int| 0 <= j < i ==> !spec_fields_match(fields[j]),
    ensures
        spec_first_match(fields) == i,
{
    lemma_first_match_is(fields, i);
}

/// On a list with no matching entry the selector settles on nothing: the
/// first-match index is the list length, and selection fails.
pub proof fn lemma_selector_rejects_all(fields: Seq<AssetFields>)
    requires
        forall|j: int| 0 <= j < fields.len() ==> !spec_fields_match(fields[j]),
    ensures
        spec_first_match(fields) == fields.len(),
{
    lemma_first_match_is(fields, fields.len() as int);
}

/// The selection predicate on one name.
pub fn name_matches(name: &str) -> (r: bool)
    ensures
        r == spec_name_matches(name@),
{
    str_contains(name, "x86_64") && str_ends_with(name, ".exe") && !str_ends_with(
        name,
        "sfx.exe",
    )
}

/// Select the installer asset: the first whose name satisfies the
/// predicate. Fails with `NoMatchingAsset` when no asset matches, and with
/// `ResponseParse` when the matching asset carries no download URL.
pub fn select_asset(assets: &Vec<AssetRecord>) -> (r: Result<SelectedAsset, StepError>)
    ensures
        ({
            let fields = assets_fields(assets@);
            let fm = spec_first_match(fields);
            if fm == fields.len() {
                r == Err::<SelectedAsset, StepError>(StepError::NoMatchingAsset)
            } else if fields[fm].1 is Some {
                r matches Ok(sel) && Some(sel.name@) == fields[fm].0 && Some(sel.url@)
                    == fields[fm].1
            } else {
                r == Err::<SelectedAsset, StepError>(StepError::ResponseParse)
            }
        }),
{
    let ghost fields = assets_fields(assets@);
    let n = assets.len();
    let mut i: usize = 0;
    while i < n
        invariant
            n == assets@.len(),
            fields == assets_fields(assets@),
            i <= n,
            forall|j: int| 0 <= j < i ==> !spec_fields_match(fields[j]),
        decreases n - i,
    {
        let matched = match &assets[i].name {
            Some(nm) => name_matches(nm.as_str()),
            None => false,
        };
        proof {
            assert(fields[i as int] == asset_fields(assets@[i as int]));
            assert(matched == spec_fields_match(fields[i as int]));
        }
        if matched {
            proof {
                lemma_first_match_is(fields, i as int);
            }
            match (&assets[i].name, &assets[i].url) {
                (Some(nm), Some(u)) => {
                    return Ok(SelectedAsset { name: nm.clone(), url: u.clone() });
                },
                _ => {
                    return Err(StepError::ResponseParse);
                },
            }
        }
        i += 1;
    }
    proof {
        lemma_first_match_is(fields, n as int);
    }
    Err(StepError::NoMatchingAsset)
}

/// What the metadata parse yields for a given body: `None` when the body is
/// not valid metadata at all, `Some(None)` when it carries no asset list,
/// and otherwise the name and URL fields of each listed asset in order.
pub uninterp spec fn release_assets_of(body: Seq<char>) -> Option<Option<Seq<AssetFields>>>;

/// The fields of a parse result, in the shape `release_assets_of` uses.
pub open spec fn parsed_assets_view(r: Option<Option<Vec<AssetRecord>>>) -> Option<
    Option<Seq<AssetFields>>,
> {
    match r {
        None => None,
        Some(None) => Some(None),
        Some(Some(v)) => Some(Some(assets_fields(v@))),
    }
}

/// Relies on serde_json::from_str together with Value::get, Value::as_array
/// and Value::as_str: decoding a release-metadata body and reading the
/// `assets` entries' `name` and `browser_download_url` fields is a function
/// of the body text alone.
#[verifier::external_body]
fn parse_release_assets(body: &str) -> (r: Option<Option<Vec<AssetRecord>>>)
    ensures
        parsed_assets_view(r) == release_assets_of(body@),
{
    let value: serde_json::Value = match serde_json::from_str(body) {
        Ok(v) => v,
        Err(_) => return None,
    };
    let assets = match value.get("assets").and_then(|v| v.as_array()) {
        Some(a) => a,
        None => return Some(None),
    };
    Some(Some(assets.iter().map(|a| AssetRecord {
        name: a.get("name").and_then(|n| n.as_str()).map(|s| s.to_owned()),
        url: a.get("browser_download_url").and_then(|u| u.as_str()).map(|s| s.to_owned()),
    }).collect()))
}

/// Resolve the installer download from a release-metadata body: parse the
/// asset list and select from it. A body that is not valid metadata fails
/// with `ResponseParse`; a body without a matching asset fails with
/// `NoMatchingAsset` and selects nothing.
pub fn resolve_installer(body: &str) -> (r: Result<SelectedAsset, StepError>)
    ensures
        ({
            match release_assets_of(body@) {
                None => r == Err::<SelectedAsset, StepError>(StepError::ResponseParse),
                Some(None) => r == Err::<SelectedAsset, StepError>(StepError::NoMatchingAsset),
                Some(Some(fields)) => {
                    let fm = spec_first_match(fields);
                    if fm == fields.len() {
                        r == Err::<SelectedAsset, StepError>(StepError::NoMatchingAsset)
                    } else if fields[fm].1 is Some {
                        r matches Ok(sel) && Some(sel.name@) == fields[fm].0 && Some(sel.url@)
                            == fields[fm].1
                    } else {
                        r == Err::<SelectedAsset, StepError>(StepError::ResponseParse)
                    }
                },
            }
        }),
{
    match parse_release_assets(body) {
        None => Err(StepError::ResponseParse),
        Some(None) => Err(StepError::NoMatchingAsset),
        Some(Some(v)) => select_asset(&v),
    }
}

} // verus!

use distill::bucket::{
    bucket_from_choice, list_buckets, select_bucket, BucketDecision, BucketError, BucketListing,
    BUCKET_PROMPT,
};
use distill::region::{
    bucket_region, load_config, ClientSettings, RegionChoice, DEFAULT_REGION,
};

#[test]
fn empty_location_constraint_is_the_default_region() {
    assert_eq!(bucket_region(Some("")), "us-east-1");
    assert_eq!(DEFAULT_REGION, "us-east-1");
}

#[test]
fn location_constraint_names_the_region() {
    assert_eq!(bucket_region(Some("eu-west-1")), "eu-west-1");
    assert_eq!(bucket_region(Some("ap-southeast-2")), "ap-southeast-2");
}

#[test]
fn absent_location_constraint_is_the_default_region() {
    assert_eq!(bucket_region(None), "us-east-1");
    assert_eq!(bucket_region(None), bucket_region(Some("")));
}

#[test]
fn resolved_region_is_never_empty() {
    for constraint in [None, Some(""), Some("us-west-2"), Some("x")] {
        assert!(!bucket_region(constraint).is_empty());
    }
}

#[test]
fn client_settings_for_a_given_region() {
    assert_eq!(
        load_config(Some("eu-central-1".to_string())),
        ClientSettings {
            region: RegionChoice::Fixed("eu-central-1".to_string()),
            stalled_stream_protection: false,
        }
    );
}

#[test]
fn client_settings_without_region_fall_back_to_default() {
    assert_eq!(
        load_config(None),
        ClientSettings {
            region: RegionChoice::ProviderChainOr("us-east-1".to_string()),
            stalled_stream_protection: false,
        }
    );
}

fn names_of(names: &[&str]) -> Vec<String> {
    names.iter().map(|n| n.to_string()).collect()
}

#[test]
fn configured_bucket_that_is_listed_is_used() {
    let listing = BucketListing::Names(names_of(&["alpha", "beta"]));
    assert_eq!(
        select_bucket("beta", &listing),
        BucketDecision::Use {
            name: "beta".to_string(),
            notices: vec!["📦 S3 bucket name: beta".to_string()],
        }
    );
}

#[test]
fn configured_bucket_that_is_not_listed_asks() {
    let listing = BucketListing::Names(names_of(&["alpha", "beta"]));
    assert_eq!(
        select_bucket("gamma", &listing),
        BucketDecision::Ask {
            notices: vec!["Error: The configured S3 bucket 'gamma' was not found.".to_string()],
            prompt: "Choose a destination S3 bucket for your audio file".to_string(),
            names: names_of(&["alpha", "beta"]),
        }
    );
    assert_eq!(BUCKET_PROMPT, "Choose a destination S3 bucket for your audio file");
}

#[test]
fn no_configured_bucket_asks_without_notice() {
    let listing = BucketListing::Names(names_of(&["alpha"]));
    assert_eq!(
        select_bucket("", &listing),
        BucketDecision::Ask {
            notices: vec![],
            prompt: BUCKET_PROMPT.to_string(),
            names: names_of(&["alpha"]),
        }
    );
}

#[test]
fn empty_listing_ends_the_run() {
    let listing = BucketListing::Names(vec![]);
    let decision = select_bucket("", &listing);
    assert_eq!(decision, BucketDecision::Fail { notices: vec![], error: BucketError::NoBuckets });
    assert_eq!(
        BucketError::NoBuckets.message(),
        "\nNo S3 buckets found. Please create an S3 bucket first."
    );
}

#[test]
fn failed_listing_ends_the_run_with_both_notices() {
    let listing = BucketListing::Failed("access denied".to_string());
    assert_eq!(
        select_bucket("gamma", &listing),
        BucketDecision::Fail {
            notices: vec![
                "Error: The configured S3 bucket 'gamma' was not found.".to_string(),
                "Error getting bucket list: access denied".to_string(),
            ],
            error: BucketError::ListFailed("access denied".to_string()),
        }
    );
    assert_eq!(
        BucketError::ListFailed("access denied".to_string()).message(),
        "\nError getting bucket list: access denied"
    );
}

#[test]
fn failed_listing_without_configured_bucket() {
    let listing = BucketListing::Failed("timeout".to_string());
    assert_eq!(
        select_bucket("", &listing),
        BucketDecision::Fail {
            notices: vec!["Error getting bucket list: timeout".to_string()],
            error: BucketError::ListFailed("timeout".to_string()),
        }
    );
}

#[test]
fn choice_picks_the_named_bucket() {
    let names = names_of(&["alpha", "beta", ""]);
    assert_eq!(bucket_from_choice(&names, 1), Ok("beta".to_string()));
    assert_eq!(bucket_from_choice(&names, 0), Ok("alpha".to_string()));
}

#[test]
fn choice_of_unnamed_or_missing_bucket_is_an_error() {
    let names = names_of(&["alpha", "beta", ""]);
    assert_eq!(bucket_from_choice(&names, 2), Err(BucketError::NoValidBucket));
    assert_eq!(bucket_from_choice(&names, 3), Err(BucketError::NoValidBucket));
    assert_eq!(
        BucketError::NoValidBucket.message(),
        "\nNo valid S3 bucket found. Please check your AWS configuration."
    );
}

#[test]
fn listed_buckets_without_name_are_listed_empty() {
    let raw = vec![Some("alpha".to_string()), None, Some("beta".to_string())];
    assert_eq!(list_buckets(&raw), names_of(&["alpha", "", "beta"]));
    assert_eq!(list_buckets(&vec![]), Vec::<String>::new());
}

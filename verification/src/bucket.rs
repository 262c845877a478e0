//! The choice of the storage bucket that takes the upload.

use crate::text::texts_view;
use vstd::prelude::*;

verus! {

/// The outcome of listing the account's buckets, as a mathematical value.
pub enum Listing {
    Names(Seq<Seq<char>>),
    Failed(Seq<char>),
}

/// The outcome of listing the account's buckets: their names, or the error.
#[derive(Clone, Debug, PartialEq, Eq)]
pub enum BucketListing {
    Names(Vec<String>),
    Failed(String),
}

impl View for BucketListing {
    type V = Listing;

    open spec fn view(&self) -> Listing {
        match self {
            BucketListing::Names(names) => Listing::Names(texts_view(names@)),
            BucketListing::Failed(error) => Listing::Failed(error@),
        }
    }
}

/// Why no bucket could be chosen, as a mathematical value.
pub enum BucketFault {
    NoBuckets,
    ListFailed(Seq<char>),
    NoValidBucket,
}

/// Why no bucket could be chosen.
#[derive(Clone, Debug, PartialEq, Eq)]
pub enum BucketError {
    /// The account has no bucket.
    NoBuckets,
    /// The buckets could not be listed.
    ListFailed(String),
    /// The chosen bucket has no name, or the choice names no bucket.
    NoValidBucket,
}

impl View for BucketError {
    type V = BucketFault;

    open spec fn view(&self) -> BucketFault {
        match self {
            BucketError::NoBuckets => BucketFault::NoBuckets,
            BucketError::ListFailed(error) => BucketFault::ListFailed(error@),
            BucketError::NoValidBucket => BucketFault::NoValidBucket,
        }
    }
}

impl BucketFault {
    /// The message with which the run ends.
    pub open spec fn message(self) -> Seq<char> {
        match self {
            BucketFault::NoBuckets => "\nNo S3 buckets found. Please create an S3 bucket first."@,
            BucketFault::ListFailed(error) => "\nError getting bucket list: "@ + error,
            BucketFault::NoValidBucket =>
                "\nNo valid S3 bucket found. Please check your AWS configuration."@,
        }
    }
}

impl BucketError {
    /// The message with which the run ends.
    pub fn message(&self) -> (message: String)
        ensures
            message@ == self@.message(),
    {
        match self {
            BucketError::NoBuckets => "\nNo S3 buckets found. Please create an S3 bucket first.".to_owned(),
            BucketError::ListFailed(error) => {
                let mut message = "\nError getting bucket list: ".to_owned();
                message.append(error.as_str());
                message
            },
            BucketError::NoValidBucket =>
                "\nNo valid S3 bucket found. Please check your AWS configuration.".to_owned(),
        }
    }
}

/// What to do about the bucket, as a mathematical value.
pub enum Decision {
    Use { name: Seq<char>, notices: Seq<Seq<char>> },
    Ask { notices: Seq<Seq<char>>, prompt: Seq<char>, names: Seq<Seq<char>> },
    Fail { notices: Seq<Seq<char>>, error: BucketFault },
}

/// What to do about the bucket: use one, ask the user to choose among the
/// listed ones, or end the run. Each carries the lines to show first.
#[derive(Clone, Debug, PartialEq, Eq)]
pub enum BucketDecision {
    Use { name: String, notices: Vec<String> },
    Ask { notices: Vec<String>, prompt: String, names: Vec<String> },
    Fail { notices: Vec<String>, error: BucketError },
}

impl View for BucketDecision {
    type V = Decision;

    open spec fn view(&self) -> Decision {
        match self {
            BucketDecision::Use { name, notices } => Decision::Use {
                name: name@,
                notices: texts_view(notices@),
            },
            BucketDecision::Ask { notices, prompt, names } => Decision::Ask {
                notices: texts_view(notices@),
                prompt: prompt@,
                names: texts_view(names@),
            },
            BucketDecision::Fail { notices, error } => Decision::Fail {
                notices: texts_view(notices@),
                error: error@,
            },
        }
    }
}

pub const BUCKET_PROMPT: &'static str = "Choose a destination S3 bucket for your audio file";

/// Whether the listing succeeded and holds the name.
pub open spec fn listed(listing: Listing, name: Seq<char>) -> bool {
    listing matches Listing::Names(names) && names.contains(name)
}

pub open spec fn found_notice(name: Seq<char>) -> Seq<char> {
    "📦 S3 bucket name: "@ + name
}

pub open spec fn not_found_notice(name: Seq<char>) -> Seq<char> {
    "Error: The configured S3 bucket '"@ + name + "' was not found."@
}

pub open spec fn list_failed_notice(error: Seq<char>) -> Seq<char> {
    "Error getting bucket list: "@ + error
}

/// The decision for a configured name (empty where none is configured) and a
/// listing. A configured bucket that is listed is used. Otherwise the user is
/// asked to choose among the listed buckets; the run ends where the listing
/// failed or is empty.
pub open spec fn decision_for(configured: Seq<char>, listing: Listing) -> Decision {
    if configured.len() > 0 && listed(listing, configured) {
        Decision::Use { name: configured, notices: seq![found_notice(configured)] }
    } else {
        let first: Seq<Seq<char>> = if configured.len() > 0 {
            seq![not_found_notice(configured)]
        } else {
            Seq::empty()
        };
        match listing {
            Listing::Names(names) => if names.len() == 0 {
                Decision::Fail { notices: first, error: BucketFault::NoBuckets }
            } else {
                Decision::Ask { notices: first, prompt: BUCKET_PROMPT@, names }
            },
            Listing::Failed(error) => Decision::Fail {
                notices: first.push(list_failed_notice(error)),
                error: BucketFault::ListFailed(error),
            },
        }
    }
}

fn holds_name(names: &Vec<String>, name: &str) -> (found: bool)
    ensures
        found == texts_view(names@).contains(name@),
{
    let wanted = name.to_owned();
    let mut i: usize = 0;
    while i < names.len()
        invariant
            i <= names.len(),
            wanted@ == name@,
            forall|k: int| 0 <= k < i ==> texts_view(names@)[k] != name@,
        decreases names.len() - i,
    {
        if names[i] == wanted {
            assert(texts_view(names@)[i as int] == name@);
            return true;
        }
        i = i + 1;
    }
    false
}

fn copy_texts(texts: &Vec<String>) -> (copy: Vec<String>)
    ensures
        texts_view(copy@) == texts_view(texts@),
{
    let mut copy: Vec<String> = Vec::new();
    let mut i: usize = 0;
    while i < texts.len()
        invariant
            i <= texts.len(),
            copy.len() == i,
            forall|k: int| 0 <= k < i ==> (#[trigger] copy[k])@ == texts[k]@,
        decreases texts.len() - i,
    {
        copy.push(texts[i].clone());
        i = i + 1;
    }
    copy
}

/// Decides about the bucket from the configured name, empty where none is
/// configured, and the outcome of listing the account's buckets.
pub fn select_bucket(configured: &str, listing: &BucketListing) -> (decision: BucketDecision)
    ensures
        decision@ == decision_for(configured@, listing@),
{
    let mut notices: Vec<String> = Vec::new();
    assert(texts_view(notices@) =~= Seq::<Seq<char>>::empty());
    if !configured.is_empty() {
        let found = match listing {
            BucketListing::Names(names) => holds_name(names, configured),
            BucketListing::Failed(_) => false,
        };
        if found {
            let mut notice = "📦 S3 bucket name: ".to_owned();
            notice.append(configured);
            notices.push(notice);
            assert(texts_view(notices@) =~= seq![found_notice(configured@)]);
            return BucketDecision::Use { name: configured.to_owned(), notices };
        }
        let mut notice = "Error: The configured S3 bucket '".to_owned();
        notice.append(configured);
        notice.append("' was not found.");
        notices.push(notice);
        assert(texts_view(notices@) =~= seq![not_found_notice(configured@)]);
    }
    match listing {
        BucketListing::Names(names) => {
            if names.len() == 0 {
                BucketDecision::Fail { notices, error: BucketError::NoBuckets }
            } else {
                BucketDecision::Ask {
                    notices,
                    prompt: BUCKET_PROMPT.to_owned(),
                    names: copy_texts(names),
                }
            }
        },
        BucketListing::Failed(error) => {
            let ghost first = texts_view(notices@);
            let mut notice = "Error getting bucket list: ".to_owned();
            notice.append(error.as_str());
            notices.push(notice);
            assert(texts_view(notices@) =~= first.push(list_failed_notice(error@)));
            BucketDecision::Fail { notices, error: BucketError::ListFailed(error.clone()) }
        },
    }
}

/// The bucket that a choice among the listed names stands for: the name at
/// the chosen position, unless it is empty or the position names no bucket.
pub open spec fn bucket_chosen(names: Seq<Seq<char>>, choice: int) -> Result<
    Seq<char>,
    BucketFault,
> {
    if 0 <= choice < names.len() && names[choice].len() > 0 {
        Ok(names[choice])
    } else {
        Err(BucketFault::NoValidBucket)
    }
}

/// Takes the user's choice among the listed names.
pub fn bucket_from_choice(names: &Vec<String>, choice: usize) -> (bucket: Result<
    String,
    BucketError,
>)
    ensures
        match bucket {
            Ok(name) => bucket_chosen(texts_view(names@), choice as int) == Ok::<
                Seq<char>,
                BucketFault,
            >(name@),
            Err(e) => bucket_chosen(texts_view(names@), choice as int) == Err::<
                Seq<char>,
                BucketFault,
            >(e@),
        },
{
    if choice < names.len() && !names[choice].as_str().is_empty() {
        Ok(names[choice].clone())
    } else {
        Err(BucketError::NoValidBucket)
    }
}

/// The names of the listed buckets, in the order listed; a bucket without a
/// name is listed with the empty name.
pub open spec fn names_listed(raw: Seq<Option<String>>) -> Seq<Seq<char>> {
    Seq::new(
        raw.len(),
        |i: int|
            match raw[i] {
                Some(name) => name@,
                None => Seq::empty(),
            },
    )
}

/// Reads the bucket names out of the storage service's listing.
pub fn list_buckets(raw: &Vec<Option<String>>) -> (names: Vec<String>)
    ensures
        texts_view(names@) == names_listed(raw@),
{
    let mut names: Vec<String> = Vec::new();
    let mut i: usize = 0;
    while i < raw.len()
        invariant
            i <= raw.len(),
            names.len() == i,
            forall|k: int| 0 <= k < i ==> (#[trigger] names[k])@ == names_listed(raw@)[k],
        decreases raw.len() - i,
    {
        let name = match &raw[i] {
            Some(name) => name.clone(),
            None => String::new(),
        };
        names.push(name);
        i = i + 1;
    }
    names
}

} // verus!

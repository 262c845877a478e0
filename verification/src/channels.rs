//! Configured notification channels.
//!
//! A platform's channels come either as a list of entries or, in the older
//! form, as one bare endpoint. Both are read here into one list of slots, one
//! per configured position, so that a selection by position means the same
//! thing everywhere.

use crate::text::{decimal, decimal_string, text_view, texts_view};
use vstd::prelude::*;

verus! {

/// The notification platforms.
#[derive(Clone, Copy, Debug, PartialEq, Eq, Structural)]
pub enum ChannelKind {
    Slack,
    Teams,
}

impl ChannelKind {
    /// The platform's name in messages.
    pub open spec fn label(self) -> Seq<char> {
        match self {
            ChannelKind::Slack => "Slack"@,
            ChannelKind::Teams => "Teams"@,
        }
    }

    /// The platform's section in the configuration.
    pub open spec fn section(self) -> Seq<char> {
        match self {
            ChannelKind::Slack => "slack"@,
            ChannelKind::Teams => "teams"@,
        }
    }

    pub fn name(self) -> (name: &'static str)
        ensures
            name@ == self.label(),
    {
        match self {
            ChannelKind::Slack => "Slack",
            ChannelKind::Teams => "Teams",
        }
    }

    pub fn config_section(self) -> (name: &'static str)
        ensures
            name@ == self.section(),
    {
        match self {
            ChannelKind::Slack => "slack",
            ChannelKind::Teams => "teams",
        }
    }
}

/// One destination, as a mathematical value.
pub struct Channel {
    pub name: Seq<char>,
    pub endpoint_url: Seq<char>,
}

/// One destination: a name and the endpoint that takes the request.
#[derive(Clone, Debug, PartialEq, Eq)]
pub struct ChannelConfig {
    pub name: String,
    pub endpoint_url: String,
}

impl View for ChannelConfig {
    type V = Channel;

    open spec fn view(&self) -> Channel {
        Channel { name: self.name@, endpoint_url: self.endpoint_url@ }
    }
}

/// One entry of a configured list, as a mathematical value.
pub enum Entry {
    Invalid,
    Table { name: Option<Seq<char>>, endpoint: Option<Seq<char>> },
}

/// One entry of a configured list: a table with an optional name and an
/// optional endpoint, or something that is no table.
#[derive(Clone, Debug, PartialEq, Eq)]
pub enum WebhookEntry {
    Invalid,
    Table { name: Option<String>, endpoint: Option<String> },
}

impl View for WebhookEntry {
    type V = Entry;

    open spec fn view(&self) -> Entry {
        match self {
            WebhookEntry::Invalid => Entry::Invalid,
            WebhookEntry::Table { name, endpoint } => Entry::Table {
                name: text_view(*name),
                endpoint: text_view(*endpoint),
            },
        }
    }
}

/// A platform's configuration, as a mathematical value.
pub enum Source {
    List(Seq<Entry>),
    Legacy(Seq<char>),
}

/// A platform's configuration: a list of entries, or the single bare endpoint
/// of the older form (empty when none is configured).
#[derive(Clone, Debug, PartialEq, Eq)]
pub enum ChannelSource {
    List(Vec<WebhookEntry>),
    Legacy(String),
}

/// The views of a list of entries.
pub open spec fn entries_view(entries: Seq<WebhookEntry>) -> Seq<Entry> {
    Seq::new(entries.len(), |i: int| entries[i]@)
}

impl View for ChannelSource {
    type V = Source;

    open spec fn view(&self) -> Source {
        match self {
            ChannelSource::List(entries) => Source::List(entries_view(entries@)),
            ChannelSource::Legacy(endpoint) => Source::Legacy(endpoint@),
        }
    }
}

/// The name of a channel that was configured without one.
pub open spec fn default_name(index: nat) -> Seq<char> {
    "Webhook "@ + decimal(index + 1)
}

/// The channel that the entry at `index` stands for: none where the entry is
/// no table or has no endpoint, or an empty one.
pub open spec fn channel_of(entry: Entry, index: nat) -> Option<Channel> {
    match entry {
        Entry::Invalid => None,
        Entry::Table { name, endpoint } => match endpoint {
            Some(url) => if url.len() > 0 {
                Some(
                    Channel {
                        name: match name {
                            Some(n) => n,
                            None => default_name(index),
                        },
                        endpoint_url: url,
                    },
                )
            } else {
                None
            },
            None => None,
        },
    }
}

/// The slots of a configuration, one per configured position. The older form
/// is a list of one channel, or of none where the endpoint is empty.
pub open spec fn slots(source: Source) -> Seq<Option<Channel>> {
    match source {
        Source::List(entries) => Seq::new(entries.len(), |i: int| channel_of(entries[i], i as nat)),
        Source::Legacy(endpoint) => if endpoint.len() > 0 {
            seq![Some(Channel { name: default_name(0), endpoint_url: endpoint })]
        } else {
            Seq::empty()
        },
    }
}

/// The views of a list of optional channels.
pub open spec fn slots_view(slots: Seq<Option<ChannelConfig>>) -> Seq<Option<Channel>> {
    Seq::new(
        slots.len(),
        |i: int|
            match slots[i] {
                Some(c) => Some(c@),
                None => None,
            },
    )
}

fn default_channel_name(index: usize) -> (name: String)
    requires
        index < usize::MAX,
    ensures
        name@ == default_name(index as nat),
{
    let mut name = "Webhook ".to_owned();
    name.append(decimal_string((index + 1) as u64).as_str());
    name
}

fn channel_at(entry: &WebhookEntry, index: usize) -> (slot: Option<ChannelConfig>)
    requires
        index < usize::MAX,
    ensures
        match slot {
            Some(c) => channel_of(entry@, index as nat) == Some(c@),
            None => channel_of(entry@, index as nat) is None,
        },
{
    match entry {
        WebhookEntry::Invalid => None,
        WebhookEntry::Table { name, endpoint } => match endpoint {
            Some(url) => {
                if url.as_str().is_empty() {
                    None
                } else {
                    let name = match name {
                        Some(n) => n.clone(),
                        None => default_channel_name(index),
                    };
                    Some(ChannelConfig { name, endpoint_url: url.clone() })
                }
            },
            None => None,
        },
    }
}

/// Reads a configuration into its slots.
pub fn channel_slots(source: &ChannelSource) -> (list: Vec<Option<ChannelConfig>>)
    ensures
        slots_view(list@) == slots(source@),
{
    match source {
        ChannelSource::List(entries) => {
            let mut list: Vec<Option<ChannelConfig>> = Vec::new();
            let mut i: usize = 0;
            while i < entries.len()
                invariant
                    i <= entries.len(),
                    list.len() == i,
                    forall|k: int|
                        0 <= k < i ==> (#[trigger] slots_view(list@)[k]) == channel_of(
                            entries[k]@,
                            k as nat,
                        ),
                decreases entries.len() - i,
            {
                let slot = channel_at(&entries[i], i);
                let ghost before = list@;
                list.push(slot);
                assert forall|k: int| 0 <= k < i + 1 implies (#[trigger] slots_view(list@)[k])
                    == channel_of(entries[k]@, k as nat) by {
                    if k < i {
                        assert(slots_view(before)[k] == channel_of(entries[k]@, k as nat));
                    }
                }
                i = i + 1;
            }
            list
        },
        ChannelSource::Legacy(endpoint) => {
            let mut list: Vec<Option<ChannelConfig>> = Vec::new();
            if !endpoint.as_str().is_empty() {
                list.push(
                    Some(ChannelConfig { name: default_channel_name(0), endpoint_url: endpoint.clone() }),
                );
            }
            list
        },
    }
}


/// How the channels to contact are chosen, as a mathematical value.
pub enum Choice {
    Fixed(Seq<usize>),
    Ask { prompt: Seq<char>, labels: Seq<Seq<char>> },
}

/// How the channels to contact are chosen: without asking, by the positions
/// given; or by asking the user to pick among the labels.
#[derive(Clone, Debug, PartialEq, Eq)]
pub enum SelectionPlan {
    Fixed(Vec<usize>),
    Ask { prompt: String, labels: Vec<String> },
}

impl View for SelectionPlan {
    type V = Choice;

    open spec fn view(&self) -> Choice {
        match self {
            SelectionPlan::Fixed(positions) => Choice::Fixed(positions@),
            SelectionPlan::Ask { prompt, labels } => Choice::Ask {
                prompt: prompt@,
                labels: texts_view(labels@),
            },
        }
    }
}

/// The label under which an entry is offered for selection.
pub open spec fn entry_label(entry: Entry) -> Seq<char> {
    match entry {
        Entry::Invalid => "Invalid webhook"@,
        Entry::Table { name, endpoint } => match name {
            Some(n) => n,
            None => "Unnamed webhook"@,
        },
    }
}

/// The question put to the user when several channels are configured.
pub open spec fn selection_prompt(kind: ChannelKind) -> Seq<char> {
    "📝 Select "@ + kind.section() + " channels to send the summary to"@
}

/// The choice for a configuration: nothing to choose from gives no position,
/// a single channel is taken without asking, several are put to the user.
pub open spec fn choice_for(source: Source, kind: ChannelKind) -> Choice {
    match source {
        Source::List(entries) => if entries.len() == 0 {
            Choice::Fixed(Seq::empty())
        } else if entries.len() == 1 {
            Choice::Fixed(seq![0usize])
        } else {
            Choice::Ask {
                prompt: selection_prompt(kind),
                labels: Seq::new(entries.len(), |i: int| entry_label(entries[i])),
            }
        },
        Source::Legacy(endpoint) => if endpoint.len() > 0 {
            Choice::Fixed(seq![0usize])
        } else {
            Choice::Fixed(Seq::empty())
        },
    }
}

fn label_of(entry: &WebhookEntry) -> (label: String)
    ensures
        label@ == entry_label(entry@),
{
    match entry {
        WebhookEntry::Invalid => "Invalid webhook".to_owned(),
        WebhookEntry::Table { name, endpoint } => match name {
            Some(n) => n.clone(),
            None => "Unnamed webhook".to_owned(),
        },
    }
}

/// Decides how the channels of a platform are chosen.
pub fn select_webhooks(source: &ChannelSource, kind: ChannelKind) -> (plan: SelectionPlan)
    ensures
        plan@ == choice_for(source@, kind),
{
    match source {
        ChannelSource::List(entries) => {
            if entries.len() == 0 {
                let positions: Vec<usize> = Vec::new();
                SelectionPlan::Fixed(positions)
            } else if entries.len() == 1 {
                let mut positions: Vec<usize> = Vec::new();
                positions.push(0);
                SelectionPlan::Fixed(positions)
            } else {
                let mut labels: Vec<String> = Vec::new();
                let mut i: usize = 0;
                while i < entries.len()
                    invariant
                        i <= entries.len(),
                        labels.len() == i,
                        forall|k: int|
                            0 <= k < i ==> (#[trigger] labels[k])@ == entry_label(entries[k]@),
                    decreases entries.len() - i,
                {
                    labels.push(label_of(&entries[i]));
                    i = i + 1;
                }
                let mut prompt = "📝 Select ".to_owned();
                prompt.append(kind.config_section());
                prompt.append(" channels to send the summary to");
                assert(texts_view(labels@) =~= Seq::new(
                    entries@.len(),
                    |i: int| entry_label(entries_view(entries@)[i]),
                ));
                SelectionPlan::Ask { prompt, labels }
            }
        },
        ChannelSource::Legacy(endpoint) => {
            let mut positions: Vec<usize> = Vec::new();
            if !endpoint.as_str().is_empty() {
                positions.push(0);
            } else {
            }
            SelectionPlan::Fixed(positions)
        },
    }
}

} // verus!

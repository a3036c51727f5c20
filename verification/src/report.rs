//! Windowed counter deltas and the single pass over their channel entries.

use vstd::prelude::*;
use crate::channel::{
    channel_of_name, group_of_name, ChannelGroupView, ChannelView, IOReportChannel,
    IOReportChannelGroup,
};
use crate::text::{trim, trimmed};

verus! {

/// One channel of a delta as the provider reports it: untreated text and the
/// counter's increase over the window.
#[derive(Debug, Clone, PartialEq, Eq)]
pub struct RawChannelEntry {
    pub group: String,
    pub subgroup: String,
    pub channel_name: String,
    pub unit: String,
    pub raw_counter_value: i64,
}

/// Mathematical value of a [`RawChannelEntry`].
pub struct RawChannelEntryView {
    pub group: Seq<char>,
    pub subgroup: Seq<char>,
    pub channel_name: Seq<char>,
    pub unit: Seq<char>,
    pub raw_counter_value: int,
}

impl View for RawChannelEntry {
    type V = RawChannelEntryView;

    open spec fn view(&self) -> RawChannelEntryView {
        RawChannelEntryView {
            group: self.group@,
            subgroup: self.subgroup@,
            channel_name: self.channel_name@,
            unit: self.unit@,
            raw_counter_value: self.raw_counter_value as int,
        }
    }
}

/// One channel of a delta after classification.
#[derive(Debug, Clone, PartialEq, Eq)]
pub struct IOReportIteratorItem {
    pub group: IOReportChannelGroup,
    pub subgroup: String,
    pub channel: IOReportChannel,
    pub unit: String,
    pub value: i64,
}

/// Mathematical value of an [`IOReportIteratorItem`].
pub struct IOReportIteratorItemView {
    pub group: ChannelGroupView,
    pub subgroup: Seq<char>,
    pub channel: ChannelView,
    pub unit: Seq<char>,
    pub value: int,
}

impl View for IOReportIteratorItem {
    type V = IOReportIteratorItemView;

    open spec fn view(&self) -> IOReportIteratorItemView {
        IOReportIteratorItemView {
            group: self.group@,
            subgroup: self.subgroup@,
            channel: self.channel@,
            unit: self.unit@,
            value: self.value as int,
        }
    }
}

impl RawChannelEntryView {
    /// The classified form of an entry: group and channel names become their
    /// tagged variants, the unit label loses its surrounding whitespace, the
    /// subgroup and the counter value stay as they are.
    pub open spec fn classified(self) -> IOReportIteratorItemView {
        IOReportIteratorItemView {
            group: group_of_name(self.group),
            subgroup: self.subgroup,
            channel: channel_of_name(self.channel_name),
            unit: trimmed(self.unit),
            value: self.raw_counter_value,
        }
    }
}

impl IOReportIteratorItem {
    /// Classifies one entry of the provider.
    pub fn classify(raw: &RawChannelEntry) -> (item: IOReportIteratorItem)
        ensures
            item@ == raw@.classified(),
    {
        IOReportIteratorItem {
            group: IOReportChannelGroup::from(raw.group.clone()),
            subgroup: raw.subgroup.clone(),
            channel: IOReportChannel::from(raw.channel_name.clone()),
            unit: trim(raw.unit.as_str()).to_owned(),
            value: raw.raw_counter_value,
        }
    }
}

/// Single pass over the entries of one delta, in the provider's order.
#[derive(Debug, PartialEq, Eq)]
pub struct IOReportIterator {
    entries: Vec<RawChannelEntry>,
    index: usize,
}

impl IOReportIterator {
    #[verifier::type_invariant]
    spec fn well_formed(&self) -> bool {
        self.index <= self.entries@.len()
    }

    /// All entries of the delta, those already passed included.
    pub closed spec fn entries(&self) -> Seq<RawChannelEntryView> {
        Seq::new(self.entries@.len(), |i: int| self.entries@[i]@)
    }

    /// How many entries the pass has yielded so far.
    pub closed spec fn position(&self) -> nat {
        self.index as nat
    }

    /// The entries that the pass has still to yield.
    pub open spec fn remaining(&self) -> Seq<RawChannelEntryView> {
        self.entries().subrange(self.position() as int, self.entries().len() as int)
    }

    /// A pass that starts before the first of `entries`.
    pub fn new(entries: Vec<RawChannelEntry>) -> (pass: IOReportIterator)
        ensures
            pass.entries() == Seq::new(entries@.len(), |i: int| entries@[i]@),
            pass.position() == 0,
    {
        IOReportIterator { entries, index: 0 }
    }

    /// How many entries the delta holds.
    pub fn len(&self) -> (count: usize)
        ensures
            count == self.entries().len(),
            self.position() <= count,
    {
        proof {
            use_type_invariant(self);
        }
        self.entries.len()
    }

    /// Yields the next entry, classified, and moves past it; `None` once
    /// every entry has been yielded, from then on for good.
    pub fn next(&mut self) -> (item: Option<IOReportIteratorItem>)
        ensures
            final(self).entries() == old(self).entries(),
            old(self).position() <= old(self).entries().len(),
            old(self).position() < old(self).entries().len() ==> {
                &&& item is Some
                &&& item->Some_0@ == old(self).entries()[old(self).position() as int].classified()
                &&& final(self).position() == old(self).position() + 1
            },
            old(self).position() == old(self).entries().len() ==> {
                &&& item is None
                &&& final(self).position() == old(self).position()
            },
    {
        proof {
            use_type_invariant(&*self);
        }
        if self.index >= self.entries.len() {
            return None;
        }
        let item = IOReportIteratorItem::classify(&self.entries[self.index]);
        self.index += 1;
        Some(item)
    }
}

/// One windowed delta of the provider: its entries and the time it spans.
#[derive(Debug, PartialEq, Eq)]
pub struct IOReportSample {
    iterator: IOReportIterator,
    duration: u64,
}

impl IOReportSample {
    #[verifier::type_invariant]
    spec fn well_formed(&self) -> bool {
        self.duration >= 1
    }

    /// The pass over the entries of the delta.
    pub closed spec fn spec_iterator(&self) -> IOReportIterator {
        self.iterator
    }

    /// Milliseconds that the delta spans.
    pub closed spec fn spec_duration(&self) -> nat {
        self.duration as nat
    }

    /// A delta over `iterator`'s entries that spans `duration` milliseconds,
    /// floored at one.
    pub fn new(iterator: IOReportIterator, duration: u64) -> (sample: IOReportSample)
        ensures
            sample.spec_iterator() == iterator,
            sample.spec_duration() == crate::units::floored_ms(duration as int),
    {
        let duration: u64 = if duration < 1 {
            1
        } else {
            duration
        };
        IOReportSample { iterator, duration }
    }

    /// The pass over the entries of the delta.
    pub fn iterator(&self) -> (pass: &IOReportIterator)
        ensures
            *pass == self.spec_iterator(),
    {
        &self.iterator
    }

    /// Gives up the delta for the pass over its entries.
    pub fn into_iterator(self) -> (pass: IOReportIterator)
        ensures
            pass == self.spec_iterator(),
    {
        self.iterator
    }

    /// Milliseconds that the delta spans; at least one.
    pub fn duration(&self) -> (millis: u64)
        ensures
            millis == self.spec_duration(),
            millis >= 1,
    {
        proof {
            use_type_invariant(self);
        }
        self.duration
    }
}

} // verus!

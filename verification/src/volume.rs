//! The last volume sample of each market. A new sample always replaces the
//! market's last one, and says over which time a velocity is to be computed.
//!
//! The book does not read volumes: their type is left to the caller.

use vstd::prelude::*;
use crate::analytics::{elapsed_between, sample_window};

verus! {

/// The last sample of one market.
pub struct VolumeSample<V> {
    pub market_id: String,
    pub volume: V,
    /// When the sample was taken, in seconds.
    pub timestamp: i64,
}

/// The samples as a map from market id to volume and time; of two samples of
/// one market the later in the list counts.
pub open spec fn samples_map<V>(samples: Seq<VolumeSample<V>>) -> Map<Seq<char>, (V, i64)>
    decreases samples.len(),
{
    if samples.len() == 0 {
        Map::empty()
    } else {
        samples_map(samples.drop_last()).insert(
            samples.last().market_id@,
            (samples.last().volume, samples.last().timestamp),
        )
    }
}

/// No two samples are of the same market.
pub open spec fn one_sample_each<V>(samples: Seq<VolumeSample<V>>) -> bool {
    forall|i: int, j: int|
        0 <= i < j < samples.len() ==> (#[trigger] samples[i]).market_id@ != (
        #[trigger] samples[j]).market_id@
}

/// What a new sample at time `now` finds for its market: the volume of the
/// market's last sample and the seconds since then, if there is a last sample
/// and it is older than the new one.
pub open spec fn previous_and_window<V>(
    book: Map<Seq<char>, (V, i64)>,
    market_id: Seq<char>,
    now: i64,
) -> Option<(V, u64)> {
    if book.contains_key(market_id) {
        match elapsed_between(book[market_id].1, now) {
            Some(seconds) => Some((book[market_id].0, seconds)),
            None => None,
        }
    } else {
        None
    }
}

/// A market's first sample, and a sample that is no later than the market's
/// last one, give no time over which to compute a velocity; any later sample
/// gives the seconds since the last one.
pub proof fn lemma_window_needs_later_sample<V>(
    book: Map<Seq<char>, (V, i64)>,
    market_id: Seq<char>,
    now: i64,
)
    ensures
        !book.contains_key(market_id) ==> previous_and_window(book, market_id, now).is_none(),
        book.contains_key(market_id) && now <= book[market_id].1 ==> previous_and_window(
            book,
            market_id,
            now,
        ).is_none(),
        book.contains_key(market_id) && now > book[market_id].1 ==> previous_and_window(
            book,
            market_id,
            now,
        ) == Some((book[market_id].0, (now - book[market_id].1) as u64)),
{
}

proof fn lemma_samples_map<V>(samples: Seq<VolumeSample<V>>, key: Seq<char>)
    ensures
        samples_map(samples).contains_key(key) <==> exists|i: int|
            0 <= i < samples.len() && (#[trigger] samples[i]).market_id@ == key,
        one_sample_each(samples) ==> forall|i: int|
            0 <= i < samples.len() && (#[trigger] samples[i]).market_id@ == key ==> samples_map(
                samples,
            )[key] == (samples[i].volume, samples[i].timestamp),
    decreases samples.len(),
{
    if samples.len() > 0 {
        let front = samples.drop_last();
        lemma_samples_map(front, key);
        if samples_map(samples).contains_key(key) {
            if samples.last().market_id@ == key {
                assert(samples[samples.len() - 1].market_id@ == key);
            } else {
                let i = choose|i: int|
                    0 <= i < front.len() && (#[trigger] front[i]).market_id@ == key;
                assert(samples[i].market_id@ == key);
            }
        }
        if exists|i: int| 0 <= i < samples.len() && (#[trigger] samples[i]).market_id@ == key {
            let i = choose|i: int|
                0 <= i < samples.len() && (#[trigger] samples[i]).market_id@ == key;
            if i < front.len() {
                assert(front[i].market_id@ == key);
            }
        }
        if one_sample_each(samples) {
            assert(one_sample_each(front)) by {
                assert forall|i: int, j: int| 0 <= i < j < front.len() implies (
                #[trigger] front[i]).market_id@ != (#[trigger] front[j]).market_id@ by {
                    assert(front[i] == samples[i]);
                    assert(front[j] == samples[j]);
                }
            }
            assert forall|i: int|
                0 <= i < samples.len() && (#[trigger] samples[i]).market_id@
                    == key implies samples_map(samples)[key] == (
                samples[i].volume,
                samples[i].timestamp,
            ) by {
                if i < front.len() {
                    assert(front[i] == samples[i]);
                    assert(samples[i].market_id@ != samples[samples.len() - 1].market_id@);
                }
            }
        }
    }
}

proof fn lemma_samples_map_update<V>(
    samples: Seq<VolumeSample<V>>,
    i: int,
    sample: VolumeSample<V>,
)
    requires
        one_sample_each(samples),
        0 <= i < samples.len(),
        samples[i].market_id@ == sample.market_id@,
    ensures
        one_sample_each(samples.update(i, sample)),
        samples_map(samples.update(i, sample)) == samples_map(samples).insert(
            sample.market_id@,
            (sample.volume, sample.timestamp),
        ),
    decreases samples.len(),
{
    let updated = samples.update(i, sample);
    assert forall|a: int, b: int| 0 <= a < b < updated.len() implies (
    #[trigger] updated[a]).market_id@ != (#[trigger] updated[b]).market_id@ by {
        assert(updated[a].market_id@ == samples[a].market_id@);
        assert(updated[b].market_id@ == samples[b].market_id@);
    }
    let front = samples.drop_last();
    if i == samples.len() - 1 {
        assert(updated.drop_last() == front);
        assert(samples_map(updated) =~= samples_map(samples).insert(
            sample.market_id@,
            (sample.volume, sample.timestamp),
        ));
    } else {
        assert(one_sample_each(front)) by {
            assert forall|a: int, b: int| 0 <= a < b < front.len() implies (
            #[trigger] front[a]).market_id@ != (#[trigger] front[b]).market_id@ by {
                assert(front[a] == samples[a]);
                assert(front[b] == samples[b]);
            }
        }
        assert(front[i] == samples[i]);
        lemma_samples_map_update(front, i, sample);
        assert(updated.drop_last() == front.update(i, sample));
        assert(updated.last() == samples.last());
        assert(samples[i].market_id@ != samples[samples.len() - 1].market_id@);
        assert(samples_map(updated) =~= samples_map(samples).insert(
            sample.market_id@,
            (sample.volume, sample.timestamp),
        ));
    }
}

/// The last volume sample of each market.
pub struct VolumeBook<V> {
    samples: Vec<VolumeSample<V>>,
}

impl<V> View for VolumeBook<V> {
    type V = Map<Seq<char>, (V, i64)>;

    closed spec fn view(&self) -> Map<Seq<char>, (V, i64)> {
        samples_map(self.samples@)
    }
}

impl<V> VolumeBook<V> {
    #[verifier::type_invariant]
    spec fn no_market_twice(self) -> bool {
        one_sample_each(self.samples@)
    }

    /// A book without samples.
    pub fn new() -> (book: VolumeBook<V>)
        ensures
            book@ == Map::<Seq<char>, (V, i64)>::empty(),
    {
        VolumeBook { samples: Vec::new() }
    }

    /// Number of markets with a sample.
    pub fn len(&self) -> (n: usize)
        ensures
            self@.dom().finite(),
            n == self@.dom().len(),
    {
        proof {
            use_type_invariant(self);
            lemma_domain_size(self.samples@);
        }
        self.samples.len()
    }

    fn find(&self, market_id: &str) -> (r: Option<usize>)
        ensures
            r.is_some() == self@.contains_key(market_id@),
            r matches Some(i) ==> i < self.samples@.len() && self.samples@[i as int].market_id@
                == market_id@ && self@[market_id@] == (
                self.samples@[i as int].volume,
                self.samples@[i as int].timestamp,
            ),
            one_sample_each(self.samples@),
    {
        let mut i: usize = 0;
        while i < self.samples.len()
            invariant
                i <= self.samples.len(),
                forall|j: int| 0 <= j < i ==> (#[trigger] self.samples@[j]).market_id@ != market_id@,
            decreases self.samples.len() - i,
        {
            if self.samples[i].market_id.as_str().eq(market_id) {
                proof {
                    use_type_invariant(self);
                    lemma_samples_map(self.samples@, market_id@);
                    assert(self.samples@[i as int].market_id@ == market_id@);
                }
                return Some(i);
            }
            i = i + 1;
        }
        proof {
            use_type_invariant(self);
            lemma_samples_map(self.samples@, market_id@);
        }
        None
    }

    /// When the market's last sample was taken, if it has one.
    pub fn last_timestamp(&self, market_id: &str) -> (r: Option<i64>)
        ensures
            r == if self@.contains_key(market_id@) {
                Some(self@[market_id@].1)
            } else {
                None
            },
    {
        match self.find(market_id) {
            Some(i) => Some(self.samples[i].timestamp),
            None => None,
        }
    }

    /// Takes a new sample of a market. The sample replaces the market's last
    /// one whatever comes of it. What comes back is the volume of the last
    /// sample and the seconds since it, over which the velocity is computed;
    /// nothing comes back for a market's first sample, and nothing for a
    /// sample that is no later than the last one.
    pub fn observe(&mut self, market_id: &str, volume: V, now: i64) -> (r: Option<(V, u64)>)
        ensures
            r == previous_and_window(old(self)@, market_id@, now),
            final(self)@ == old(self)@.insert(market_id@, (volume, now)),
    {
        let sample = VolumeSample { market_id: market_id.to_owned(), volume, timestamp: now };
        match self.find(market_id) {
            Some(i) => {
                let mut samples: Vec<VolumeSample<V>> = Vec::new();
                std::mem::swap(&mut samples, &mut self.samples);
                proof {
                    lemma_samples_map_update(samples@, i as int, sample);
                }
                let previous = samples.remove(i);
                samples.insert(i, sample);
                assert(samples@ =~= old(self).samples@.update(i as int, sample));
                self.samples = samples;
                match sample_window(Some(previous.timestamp), now) {
                    Some(seconds) => Some((previous.volume, seconds)),
                    None => None,
                }
            },
            None => {
                let mut samples: Vec<VolumeSample<V>> = Vec::new();
                std::mem::swap(&mut samples, &mut self.samples);
                proof {
                    lemma_samples_map(samples@, market_id@);
                }
                samples.push(sample);
                assert(samples@.drop_last() == old(self).samples@);
                assert(one_sample_each(samples@)) by {
                    assert forall|a: int, b: int| 0 <= a < b < samples@.len() implies (
                    #[trigger] samples@[a]).market_id@ != (#[trigger] samples@[b]).market_id@ by {
                        if b == samples@.len() - 1 {
                            assert(old(self).samples@[a].market_id@ != market_id@);
                        }
                    }
                }
                self.samples = samples;
                None
            },
        }
    }
}

proof fn lemma_domain_size<V>(samples: Seq<VolumeSample<V>>)
    requires
        one_sample_each(samples),
    ensures
        samples_map(samples).dom().finite(),
        samples_map(samples).dom().len() == samples.len(),
    decreases samples.len(),
{
    if samples.len() == 0 {
        assert(samples_map(samples).dom() =~= Set::<Seq<char>>::empty());
    } else {
        let front = samples.drop_last();
        assert(one_sample_each(front)) by {
            assert forall|a: int, b: int| 0 <= a < b < front.len() implies (
            #[trigger] front[a]).market_id@ != (#[trigger] front[b]).market_id@ by {
                assert(front[a] == samples[a]);
                assert(front[b] == samples[b]);
            }
        }
        lemma_domain_size(front);
        lemma_samples_map(front, samples.last().market_id@);
        assert(!samples_map(front).contains_key(samples.last().market_id@)) by {
            if samples_map(front).contains_key(samples.last().market_id@) {
                let i = choose|i: int|
                    0 <= i < front.len() && (#[trigger] front[i]).market_id@
                        == samples.last().market_id@;
                assert(samples[i].market_id@ != samples[samples.len() - 1].market_id@);
            }
        }
        assert(samples_map(samples).dom() =~= samples_map(front).dom().insert(
            samples.last().market_id@,
        ));
    }
}

} // verus!

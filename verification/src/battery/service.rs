use super::types::BatteryData;
use vstd::prelude::*;

verus! {

/// A source of battery readings: the state of every battery of the system, or
/// why they could not be listed.
pub trait BatteryService {
    fn batteries(&mut self) -> Result<Vec<BatteryData>, String>;
}

/// The batteries that could be read, in order.
pub open spec fn read_batteries(readings: Seq<Result<BatteryData, String>>) -> Seq<BatteryData>
    decreases readings.len(),
{
    if readings.len() == 0 {
        Seq::empty()
    } else {
        let rest = read_batteries(readings.drop_last());
        match readings.last() {
            Ok(data) => rest.push(data),
            Err(_) => rest,
        }
    }
}

/// The errors of the batteries that could not be read, in order.
pub open spec fn read_errors(readings: Seq<Result<BatteryData, String>>) -> Seq<Seq<char>>
    decreases readings.len(),
{
    if readings.len() == 0 {
        Seq::empty()
    } else {
        let rest = read_errors(readings.drop_last());
        match readings.last() {
            Ok(_) => rest,
            Err(e) => rest.push(e@),
        }
    }
}

/// Every reading is either kept or reported: as many batteries and errors come
/// out as readings went in, and when every reading succeeded all batteries are
/// kept, in order.
pub proof fn lemma_gather_loses_nothing(readings: Seq<Result<BatteryData, String>>)
    ensures
        read_batteries(readings).len() + read_errors(readings).len() == readings.len(),
        (forall|i: int| 0 <= i < readings.len() ==> (#[trigger] readings[i]) is Ok) ==> {
            &&& read_batteries(readings).len() == readings.len()
            &&& forall|i: int|
                0 <= i < readings.len() ==> readings[i] == Ok::<BatteryData, String>(
                    #[trigger] read_batteries(readings)[i],
                )
        },
    decreases readings.len(),
{
    if readings.len() > 0 {
        let rest = readings.drop_last();
        lemma_gather_loses_nothing(rest);
        if forall|i: int| 0 <= i < readings.len() ==> (#[trigger] readings[i]) is Ok {
            assert forall|i: int| 0 <= i < rest.len() implies (#[trigger] rest[i]) is Ok by {
                assert(rest[i] == readings[i]);
            }
            assert(readings[readings.len() - 1] is Ok);
            assert forall|i: int| 0 <= i < readings.len() implies readings[i] == Ok::<
                BatteryData,
                String,
            >(#[trigger] read_batteries(readings)[i]) by {
                if i < rest.len() {
                    assert(rest[i] == readings[i]);
                }
            }
        }
    }
}

/// The batteries of the kernel's power-supply class (sysfs).
pub struct SysfsBatteryService;

impl SysfsBatteryService {
    pub fn new() -> (service: Self) {
        SysfsBatteryService
    }

    /// Splits the readings of the individual batteries into those that could be
    /// read and the errors of the others (which are skipped), both in order.
    pub fn gather(&self, readings: Vec<Result<BatteryData, String>>) -> (r: (
        Vec<BatteryData>,
        Vec<String>,
    ))
        ensures
            r.0@ == read_batteries(readings@),
            r.1@.map_values(|e: String| e@) == read_errors(readings@),
    {
        let mut data: Vec<BatteryData> = Vec::new();
        let mut errors: Vec<String> = Vec::new();
        let mut i: usize = 0;
        while i < readings.len()
            invariant
                0 <= i <= readings.len(),
                data@ == read_batteries(readings@.take(i as int)),
                errors@.map_values(|e: String| e@) == read_errors(readings@.take(i as int)),
            decreases readings.len() - i,
        {
            proof {
                assert(readings@.take(i + 1).drop_last() =~= readings@.take(i as int));
            }
            match &readings[i] {
                Ok(d) => {
                    data.push(*d);
                },
                Err(e) => {
                    let ghost before = errors@;
                    errors.push(e.clone());
                    proof {
                        assert(errors@.map_values(|e: String| e@) =~= before.map_values(
                            |e: String| e@,
                        ).push(e@));
                    }
                },
            }
            i += 1;
        }
        proof {
            assert(readings@.take(readings.len() as int) =~= readings@);
        }
        (data, errors)
    }
}

} // verus!

//! What is measured of the statements that reach the database.

use vstd::prelude::*;

use crate::engine::Mysql;

verus! {

/// What counts a statement.
#[derive(Clone, Copy, Debug, PartialEq, Eq, Structural)]
pub enum Counter {
    /// The statements that were run, with rows or without.
    Requests,
    /// The statements that failed.
    Errors,
}

impl DeepView for Counter {
    type V = Counter;

    open spec fn deep_view(&self) -> Counter {
        *self
    }
}

/// A statement that came to its end, as it is measured.
#[derive(Debug)]
pub struct Measurement {
    /// How long it took.
    pub millis: u64,
    /// What counts it, once.
    pub counter: Counter,
    pub attributes: Vec<(String, String)>,
}

/// What [`Measurement`] stands for.
pub struct MeasurementView {
    pub millis: u64,
    pub counter: Counter,
    pub attributes: Seq<(Seq<char>, Seq<char>)>,
}

impl DeepView for Measurement {
    type V = MeasurementView;

    open spec fn deep_view(&self) -> MeasurementView {
        MeasurementView {
            millis: self.millis,
            counter: self.counter,
            attributes: self.attributes.deep_view(),
        }
    }
}

impl<P, S, H> Mysql<P, S, H> {
    /// A statement that came to its end after a number of milliseconds. There is no such number
    /// where the clock went back; the statement counts as one that took no time.
    pub fn measurement(
        &self,
        sql: &str,
        elapsed: Option<u128>,
        succeeded: bool,
    ) -> (measurement: Measurement)
        ensures
            measurement.deep_view() == (MeasurementView {
                millis: match elapsed {
                    Some(millis) => millis as u64,
                    None => 0,
                },
                counter: if succeeded {
                    Counter::Requests
                } else {
                    Counter::Errors
                },
                attributes: seq![("sql"@, sql@), ("cluster_id"@, self.cluster@)],
            }),
    {
        Measurement {
            millis: match elapsed {
                Some(millis) => #[verifier::truncate]
                (millis as u64),
                None => 0,
            },
            counter: if succeeded {
                Counter::Requests
            } else {
                Counter::Errors
            },
            attributes: self.attributes_for_sql(sql),
        }
    }
}

} // verus!

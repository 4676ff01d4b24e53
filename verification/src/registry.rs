//! The registry: it numbers the circles and keeps their records.
//!
//! Identifiers start at 1 and go up by one with every circle created; none is
//! used twice and no record is ever removed. An operation on a circle loads
//! the record, works on a copy and commits the copy only where the operation
//! succeeded, so a refused call leaves the registry as it was.
//!
//! Each circle lives in the host of its creator. Whoever an operation is told
//! of must live in the host of the circle it is about.
use crate::circle::Circle;
use crate::error::Error;
use crate::model::{on_host, Call, CircleView};
use soroban_sdk::Address;
use vstd::prelude::*;

verus! {

/// The keys under which the registry keeps its entries.
#[derive(Clone, Copy, Debug, PartialEq, Eq, Structural)]
pub enum DataKey {
    /// The record of the circle with this identifier.
    Circle(u32),
    /// The number of circles created so far.
    CircleCount,
}

/// The record kept under `id`, if there is one. `circles` holds the records
/// in the order of their identifiers, the first under 1.
pub open spec fn stored(circles: Seq<CircleView>, id: u32) -> Option<CircleView> {
    if 1 <= id <= circles.len() {
        Some(circles[id - 1])
    } else {
        None
    }
}

/// The records after `record` has replaced the one kept under `id`.
pub open spec fn committed(circles: Seq<CircleView>, id: u32, record: CircleView) -> Seq<
    CircleView,
>
    recommends
        stored(circles, id) is Some,
{
    circles.update(id - 1, record)
}

/// The identifier handed out after `count` circles were created: one more
/// than the last, 1 for the first; `None` once the identifiers are used up.
pub fn identifier_after(count: u32) -> (r: Option<u32>)
    ensures
        r == if count < u32::MAX {
            Some((count + 1) as u32)
        } else {
            None
        },
{
    count.checked_add(1)
}

/// The registry of all circles.
pub struct SoroSusu {
    circle_count: u32,
    circles: Vec<Circle>,
}

impl View for SoroSusu {
    type V = Seq<CircleView>;

    closed spec fn view(&self) -> Seq<CircleView> {
        self.circles@.map_values(|c: Circle| c@)
    }
}

impl SoroSusu {
    /// Whether the counter agrees with the records kept and every record is
    /// well formed.
    pub closed spec fn wf(&self) -> bool {
        &&& self.circle_count == self.circles@.len()
        &&& forall|k: int| 0 <= k < self.circles@.len() ==> (#[trigger] self.circles@[k]).wf()
    }

    /// A registry without circles.
    pub fn new() -> (r: SoroSusu)
        ensures
            r.wf(),
            r@ == Seq::<CircleView>::empty(),
    {
        SoroSusu { circle_count: 0, circles: Vec::new() }
    }

    /// The number of circles created so far, which is also the identifier of
    /// the newest.
    pub fn circle_count(&self) -> (r: u32)
        requires
            self.wf(),
        ensures
            r == self@.len(),
    {
        self.circle_count
    }

    /// Whether the registry keeps an entry under `key`: a record for each
    /// identifier handed out, and the counter once a circle was created.
    pub fn has(&self, key: &DataKey) -> (r: bool)
        requires
            self.wf(),
        ensures
            r == match *key {
                DataKey::Circle(id) => stored(self@, id) is Some,
                DataKey::CircleCount => self@.len() > 0,
            },
    {
        match key {
            DataKey::Circle(id) => 1 <= *id && *id <= self.circle_count,
            DataKey::CircleCount => self.circle_count > 0,
        }
    }

    /// Hands out the next identifier.
    fn next_circle_id(&mut self) -> (id: u32)
        requires
            old(self).circle_count < u32::MAX,
        ensures
            id == old(self).circle_count + 1,
            final(self).circle_count == id,
            final(self).circles == old(self).circles,
    {
        let next = identifier_after(self.circle_count).unwrap();
        self.circle_count = next;
        next
    }

    /// A copy of the record kept under `id`.
    fn read_circle(&self, id: u32) -> (r: Result<Circle, Error>)
        requires
            self.wf(),
        ensures
            match r {
                Ok(circle) => circle.wf() && stored(self@, id) == Some(circle@),
                Err(e) => e == Error::CircleNotFound && stored(self@, id) is None,
            },
    {
        if id == 0 || id > self.circle_count {
            return Err(Error::CircleNotFound);
        }
        Ok(self.circles[(id - 1) as usize].clone())
    }

    /// Puts `circle` in the place of the record kept under `id`.
    fn write_circle(&mut self, id: u32, circle: Circle)
        requires
            old(self).wf(),
            stored(old(self)@, id) is Some,
            circle.wf(),
        ensures
            final(self).wf(),
            final(self)@ == committed(old(self)@, id, circle@),
    {
        self.circles.set((id - 1) as usize, circle);
    }

    /// Creates a circle with `creator` as its admin and returns its
    /// identifier: one more than the last one handed out, 1 for the first.
    /// The circle starts without members, payout order or votes, and lives in
    /// the host of its creator.
    pub fn create_circle(&mut self, creator: &Address, contribution: i128, is_random_queue: bool) -> (id:
        u32)
        requires
            old(self).wf(),
            old(self)@.len() < u32::MAX,
        ensures
            final(self).wf(),
            id == old(self)@.len() + 1,
            final(self)@ == old(self)@.push(
                CircleView::created(*creator, contribution as int, is_random_queue),
            ),
    {
        let id = self.next_circle_id();
        let circle = Circle::new(crate::host::clone_address(creator), contribution, is_random_queue);
        self.circles.push(circle);
        assert(self@ =~= old(self)@.push(
            CircleView::created(*creator, contribution as int, is_random_queue),
        ));
        id
    }

    /// `caller` joins the circle `circle_id`; see `Circle::join`.
    /// Refused with `CircleNotFound` where no such circle was created.
    pub fn join_circle(&mut self, caller: &Address, circle_id: u32) -> (r: Result<(), Error>)
        requires
            old(self).wf(),
            stored(old(self)@, circle_id) matches Some(circle) ==> circle.reaches(*caller),
        ensures
            final(self).wf(),
            match stored(old(self)@, circle_id) {
                None => r == Err::<(), Error>(Error::CircleNotFound) && final(self)@ == old(self)@,
                Some(circle) => match circle.join(*caller) {
                    Ok(next) => r is Ok && final(self)@ == committed(old(self)@, circle_id, next),
                    Err(e) => r == Err::<(), Error>(e) && final(self)@ == old(self)@,
                },
            },
    {
        let mut circle = match self.read_circle(circle_id) {
            Ok(circle) => circle,
            Err(e) => {
                return Err(e);
            },
        };
        match circle.join(caller) {
            Ok(()) => {
                self.write_circle(circle_id, circle);
                Ok(())
            },
            Err(e) => Err(e),
        }
    }

    /// The admin fixes the payout order of the circle `circle_id`, with
    /// `drawn` as the order drawn at random; see `Circle::finalize`. Refused
    /// with `CircleNotFound` where no such circle was created.
    pub fn finalize_circle(&mut self, caller: &Address, circle_id: u32, drawn: &Vec<Address>) -> (r:
        Result<(), Error>)
        requires
            old(self).wf(),
            stored(old(self)@, circle_id) matches Some(circle) ==> {
                &&& circle.reaches(*caller)
                &&& circle.wants_draw(*caller) ==> on_host(drawn@, circle.host)
                &&& circle.admits(Call::Finalize { caller: *caller, drawn: drawn@ })
            },
        ensures
            final(self).wf(),
            match stored(old(self)@, circle_id) {
                None => r == Err::<(), Error>(Error::CircleNotFound) && final(self)@ == old(self)@,
                Some(circle) => match circle.finalize(*caller, drawn@) {
                    Ok(next) => r is Ok && final(self)@ == committed(old(self)@, circle_id, next),
                    Err(e) => r == Err::<(), Error>(e) && final(self)@ == old(self)@,
                },
            },
    {
        let mut circle = match self.read_circle(circle_id) {
            Ok(circle) => circle,
            Err(e) => {
                return Err(e);
            },
        };
        match circle.finalize(caller, drawn) {
            Ok(()) => {
                self.write_circle(circle_id, circle);
                Ok(())
            },
            Err(e) => Err(e),
        }
    }

    /// `finalize_circle` for an order that nothing is known of; see
    /// `Circle::try_finalize`. The answer is `None`, and the registry stays as
    /// it is, where the circle wants an order and `drawn` is none that can be
    /// used. So whatever is handed in: where the call fixes the payout order
    /// of the circle, the order holds its members of that moment, each once.
    pub fn try_finalize_circle(&mut self, caller: &Address, circle_id: u32, drawn: &Vec<Address>) -> (r:
        Option<Result<(), Error>>)
        requires
            old(self).wf(),
            stored(old(self)@, circle_id) matches Some(circle) ==> circle.reaches(*caller),
        ensures
            final(self).wf(),
            match stored(old(self)@, circle_id) {
                None => r == Some(Err::<(), Error>(Error::CircleNotFound))
                    && final(self)@ == old(self)@,
                Some(circle) => {
                    &&& r is None <==> circle.wants_draw(*caller) && !(on_host(
                        drawn@,
                        circle.host,
                    ) && circle.admits(Call::Finalize { caller: *caller, drawn: drawn@ }))
                    &&& match r {
                        None => final(self)@ == old(self)@,
                        Some(Ok(())) => (circle.finalize(*caller, drawn@) matches Ok(next)
                            && final(self)@ == committed(old(self)@, circle_id, next)),
                        Some(Err(e)) => circle.finalize(*caller, drawn@) == Err::<
                            CircleView,
                            Error,
                        >(e) && final(self)@ == old(self)@,
                    }
                    &&& r == Some(Ok::<(), Error>(())) && circle.schedules(*caller) ==> (stored(
                        final(self)@,
                        circle_id,
                    ) matches Some(after) && after.payout_queue.to_multiset()
                        =~= circle.members.to_multiset())
                },
            },
    {
        let mut circle = match self.read_circle(circle_id) {
            Ok(circle) => circle,
            Err(e) => {
                return Some(Err(e));
            },
        };
        match circle.try_finalize(caller, drawn) {
            None => None,
            Some(Ok(())) => {
                self.write_circle(circle_id, circle);
                Some(Ok(()))
            },
            Some(Err(e)) => Some(Err(e)),
        }
    }

    /// The admin pays `recipient` their turn in the circle `circle_id`; see
    /// `Circle::process_payout`. Refused with `CircleNotFound` where no such
    /// circle was created.
    pub fn process_payout(&mut self, caller: &Address, circle_id: u32, recipient: &Address) -> (r:
        Result<(), Error>)
        requires
            old(self).wf(),
            stored(old(self)@, circle_id) matches Some(circle) ==> {
                &&& circle.reaches(*caller)
                &&& circle.reaches(*recipient)
                &&& circle.process_payout(*caller, *recipient) is Ok ==> circle.payout_fits()
            },
        ensures
            final(self).wf(),
            match stored(old(self)@, circle_id) {
                None => r == Err::<(), Error>(Error::CircleNotFound) && final(self)@ == old(self)@,
                Some(circle) => match circle.process_payout(*caller, *recipient) {
                    Ok(next) => r is Ok && final(self)@ == committed(old(self)@, circle_id, next),
                    Err(e) => r == Err::<(), Error>(e) && final(self)@ == old(self)@,
                },
            },
    {
        let mut circle = match self.read_circle(circle_id) {
            Ok(circle) => circle,
            Err(e) => {
                return Err(e);
            },
        };
        match circle.process_payout(caller, recipient) {
            Ok(()) => {
                self.write_circle(circle_id, circle);
                Ok(())
            },
            Err(e) => Err(e),
        }
    }

    /// A member asks for the circle `circle_id` to be dissolved; see
    /// `Circle::propose_dissolution`. Refused with `CircleNotFound` where no
    /// such circle was created.
    pub fn propose_dissolution(&mut self, caller: &Address, circle_id: u32) -> (r: Result<
        (),
        Error,
    >)
        requires
            old(self).wf(),
            stored(old(self)@, circle_id) matches Some(circle) ==> circle.reaches(*caller),
        ensures
            final(self).wf(),
            match stored(old(self)@, circle_id) {
                None => r == Err::<(), Error>(Error::CircleNotFound) && final(self)@ == old(self)@,
                Some(circle) => match circle.propose_dissolution(*caller) {
                    Ok(next) => r is Ok && final(self)@ == committed(old(self)@, circle_id, next),
                    Err(e) => r == Err::<(), Error>(e) && final(self)@ == old(self)@,
                },
            },
    {
        let mut circle = match self.read_circle(circle_id) {
            Ok(circle) => circle,
            Err(e) => {
                return Err(e);
            },
        };
        match circle.propose_dissolution(caller) {
            Ok(()) => {
                self.write_circle(circle_id, circle);
                Ok(())
            },
            Err(e) => Err(e),
        }
    }

    /// A member votes to dissolve the circle `circle_id`; see
    /// `Circle::vote_dissolve`. Refused with `CircleNotFound` where no such
    /// circle was created.
    pub fn vote_dissolve(&mut self, caller: &Address, circle_id: u32) -> (r: Result<(), Error>)
        requires
            old(self).wf(),
            stored(old(self)@, circle_id) matches Some(circle) ==> circle.reaches(*caller),
        ensures
            final(self).wf(),
            match stored(old(self)@, circle_id) {
                None => r == Err::<(), Error>(Error::CircleNotFound) && final(self)@ == old(self)@,
                Some(circle) => match circle.vote_dissolve(*caller) {
                    Ok(next) => r is Ok && final(self)@ == committed(old(self)@, circle_id, next),
                    Err(e) => r == Err::<(), Error>(e) && final(self)@ == old(self)@,
                },
            },
    {
        let mut circle = match self.read_circle(circle_id) {
            Ok(circle) => circle,
            Err(e) => {
                return Err(e);
            },
        };
        match circle.vote_dissolve(caller) {
            Ok(()) => {
                self.write_circle(circle_id, circle);
                Ok(())
            },
            Err(e) => Err(e),
        }
    }

    /// A member of the dissolved circle `circle_id` takes back what is
    /// refundable to them, and the amount is returned; see
    /// `Circle::withdraw_pro_rata`. Refused with `CircleNotFound` where no
    /// such circle was created.
    pub fn withdraw_pro_rata(&mut self, caller: &Address, circle_id: u32) -> (r: Result<
        i128,
        Error,
    >)
        requires
            old(self).wf(),
            stored(old(self)@, circle_id) matches Some(circle) ==> circle.reaches(*caller),
        ensures
            final(self).wf(),
            match stored(old(self)@, circle_id) {
                None => r == Err::<i128, Error>(Error::CircleNotFound) && final(self)@ == old(
                    self,
                )@,
                Some(circle) => match circle.withdraw_pro_rata(*caller) {
                    Ok((next, amount)) => r == Ok::<i128, Error>(amount as i128) && amount
                        == amount as i128 && final(self)@ == committed(
                        old(self)@,
                        circle_id,
                        next,
                    ),
                    Err(e) => r == Err::<i128, Error>(e) && final(self)@ == old(self)@,
                },
            },
    {
        let mut circle = match self.read_circle(circle_id) {
            Ok(circle) => circle,
            Err(e) => {
                return Err(e);
            },
        };
        match circle.withdraw_pro_rata(caller) {
            Ok(amount) => {
                if amount > 0 {
                    self.write_circle(circle_id, circle);
                }
                Ok(amount)
            },
            Err(e) => Err(e),
        }
    }

    /// A copy of the record of the circle `circle_id`, or `CircleNotFound`
    /// where no such circle was created. The registry is not changed.
    pub fn get_circle(&self, circle_id: u32) -> (r: Result<Circle, Error>)
        requires
            self.wf(),
        ensures
            match r {
                Ok(circle) => circle.wf() && stored(self@, circle_id) == Some(circle@),
                Err(e) => e == Error::CircleNotFound && stored(self@, circle_id) is None,
            },
    {
        self.read_circle(circle_id)
    }
}

} // verus!

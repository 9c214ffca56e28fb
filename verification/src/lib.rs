//! Purchase-order lifecycle, modelled with the typestate pattern.
//!
//! An [`Order`] is parameterized by its current state, one of four marker
//! types: [`Pending`], [`Packaging`], [`InDelivery`], [`Completed`]. Each
//! transition is a method that exists only on the matching instantiation and
//! consumes its input, so an operation that would not make sense for the
//! order's current state cannot even be written down, and a transitioned-away
//! value cannot be used again. Contracts on each transition state that `id`,
//! `user` and `products` are carried forward unchanged, and a ghost model of
//! the state graph ([`StateTag`], [`step`]) proves that the only reachable
//! path is Pending → Packaging → InDelivery → Completed.

use vstd::prelude::*;

verus! {

/// A product line item, supplied by collaborators and treated as an opaque
/// value record: the core never interprets any of its fields.
///
/// The price is held as the bit pattern of an IEEE-754 double
/// (`f64::to_bits`), since the core only carries it along and never computes
/// with it.
#[derive(Clone, Debug)]
pub struct Product {
    pub id: String,
    pub name: String,
    pub price_bits: u64,
}

impl Product {
    /// Build a product value from its parts.
    pub fn new(id: String, name: String, price_bits: u64) -> (r: Product)
        ensures
            r.id == id,
            r.name == name,
            r.price_bits == price_bits,
    {
        Product { id, name, price_bits }
    }
}

/// The user that owns an order; an opaque value record.
#[derive(Clone, Debug)]
pub struct User {
    pub id: String,
}

impl User {
    /// Build a user value from its identifier.
    pub fn new(id: String) -> (r: User)
        ensures
            r.id == id,
    {
        User { id }
    }
}

/// Ghost-level name for each of the four order states, used to state laws
/// about the shape of the state graph.
pub enum StateTag {
    Pending,
    Packaging,
    InDelivery,
    Completed,
}

/// Marker trait implemented exactly by the four state types; `tag` names the
/// state at the specification level.
pub trait OrderState {
    spec fn tag() -> StateTag;
}

/// State of an order that was just created.
#[derive(PartialEq, Clone, Debug)]
pub struct Pending;

/// Order accepted, being assembled at a warehouse.
#[derive(PartialEq, Clone, Debug)]
pub struct Packaging;

/// Order handed to a carrier; the tracking id is assigned exactly once, on
/// entering this state, and no other state carries it.
#[derive(PartialEq, Clone, Debug)]
pub struct InDelivery {
    pub tracking_id: String,
}

/// Order delivered and closed; terminal, no transition leaves it.
#[derive(PartialEq, Clone, Debug)]
pub struct Completed;

impl OrderState for Pending {
    open spec fn tag() -> StateTag {
        StateTag::Pending
    }
}

impl OrderState for Packaging {
    open spec fn tag() -> StateTag {
        StateTag::Packaging
    }
}

impl OrderState for InDelivery {
    open spec fn tag() -> StateTag {
        StateTag::InDelivery
    }
}

impl OrderState for Completed {
    open spec fn tag() -> StateTag {
        StateTag::Completed
    }
}

/// The sole transition out of each state: Pending → Packaging → InDelivery →
/// Completed, and nothing out of Completed. The whole state graph is this
/// function, so it is a simple path: one successor per non-terminal state.
pub open spec fn step(s: StateTag) -> Option<StateTag> {
    match s {
        StateTag::Pending => Some(StateTag::Packaging),
        StateTag::Packaging => Some(StateTag::InDelivery),
        StateTag::InDelivery => Some(StateTag::Completed),
        StateTag::Completed => None,
    }
}

/// The one full lifecycle of an order, in the order the states are visited.
pub open spec fn full_path() -> Seq<StateTag> {
    seq![StateTag::Pending, StateTag::Packaging, StateTag::InDelivery, StateTag::Completed]
}

/// `tags` is the state history of one order from its creation: it starts at
/// `Pending` and each later state follows from its predecessor by `step`.
pub open spec fn is_run(tags: Seq<StateTag>) -> bool {
    &&& tags.len() > 0
    &&& tags[0] == StateTag::Pending
    &&& forall|i: int| 0 <= i < tags.len() - 1 ==> #[trigger] step(tags[i]) == Some(tags[i + 1])
}

/// Law: the only reachable sequence of states for any order, from creation,
/// is (a prefix of) Pending → Packaging → InDelivery → Completed. In
/// particular no state is skipped or revisited, and no run continues past the
/// terminal state.
pub proof fn lemma_state_path(tags: Seq<StateTag>)
    requires
        is_run(tags),
    ensures
        tags.len() <= 4,
        tags == full_path().take(tags.len() as int),
{
    if tags.len() >= 2 {
        assert(step(tags[0]) == Some(tags[1]));
    }
    if tags.len() >= 3 {
        assert(step(tags[1]) == Some(tags[2]));
    }
    if tags.len() >= 4 {
        assert(step(tags[2]) == Some(tags[3]));
    }
    if tags.len() >= 5 {
        assert(step(tags[3]) == Some(tags[4]));
    }
    assert(tags =~= full_path().take(tags.len() as int));
}

/// Law: each non-initial state has exactly one incoming transition — two
/// states that step to the same successor are the same state.
pub proof fn lemma_step_injective(a: StateTag, b: StateTag)
    requires
        step(a) == step(b),
        step(a) is Some,
    ensures
        a == b,
{
}

/// Law: `Pending` is initial — no transition reaches it, so an order is in
/// `Pending` only at creation.
pub proof fn lemma_pending_unreachable(s: StateTag)
    ensures
        step(s) != Some(StateTag::Pending),
{
}

/// An order, parameterized by its current state.
///
/// `user` and `products` are fixed at creation and carried forward unchanged
/// by every transition; only the state (and the data the state carries)
/// changes, and with it the order's type.
pub struct Order<S: OrderState> {
    pub id: String,
    pub user: User,
    pub products: Vec<Product>,
    /// The current state of the order. `InDelivery` carries data, so this
    /// field is a real value, not a phantom marker.
    pub state: S,
}

impl<S: OrderState> Order<S> {
    /// The specification-level name of this order's state.
    pub open spec fn tag(self) -> StateTag {
        S::tag()
    }
}

impl Order<Pending> {
    /// Create a new order owned by `user`, holding `products` (which may be
    /// empty: the core validates no contents). The identifier starts empty;
    /// assigning a real one is a caller concern.
    pub fn new(user: User, products: Vec<Product>) -> (r: Order<Pending>)
        ensures
            r.id@ == Seq::<char>::empty(),
            r.user == user,
            r.products == products,
            r.tag() == StateTag::Pending,
    {
        Order { id: String::new(), user, products, state: Pending }
    }

    /// Submit the order for packaging, consuming the pending order.
    pub fn submit(self) -> (r: Order<Packaging>)
        ensures
            r.id == self.id,
            r.user == self.user,
            r.products == self.products,
            step(self.tag()) == Some(r.tag()),
    {
        Order { id: self.id, user: self.user, products: self.products, state: Packaging }
    }
}

impl Order<Packaging> {
    /// Ship the order, recording the carrier's tracking id (any string,
    /// including empty: the core validates no format) and consuming the
    /// packaging order. This is the only place a tracking id is accepted.
    pub fn ship(self, tracking_id: String) -> (r: Order<InDelivery>)
        ensures
            r.id == self.id,
            r.user == self.user,
            r.products == self.products,
            r.state.tracking_id == tracking_id,
            step(self.tag()) == Some(r.tag()),
    {
        Order {
            id: self.id,
            user: self.user,
            products: self.products,
            state: InDelivery { tracking_id },
        }
    }
}

impl Order<InDelivery> {
    /// Mark the order as completed, consuming the in-delivery order and
    /// dropping the tracking id: the terminal state carries no delivery data.
    pub fn complete(self) -> (r: Order<Completed>)
        ensures
            r.id == self.id,
            r.user == self.user,
            r.products == self.products,
            step(self.tag()) == Some(r.tag()),
    {
        Order { id: self.id, user: self.user, products: self.products, state: Completed }
    }
}

} // verus!

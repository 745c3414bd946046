//! Orders as the order service exchanges them, and the decisions of the two
//! programs that talk to it: the customer, which draws orders at random and
//! submits them, and the worker, which fetches orders and marks them as
//! being processed. Talking to the order service is left to those programs.

use vstd::prelude::*;
use vstd::string::StrSliceExecFns;
use crate::metrics::{decimal, push_decimal};
use crate::random::draw;

verus! {

/// How far an order has come.
#[derive(Clone, Copy, Debug, PartialEq, Eq, Structural)]
pub enum OrderStatus {
    Pending,
    Processing,
    Complete,
}

impl OrderStatus {
    /// The number that stands for the status on the wire.
    pub open spec fn code_of(self) -> u32 {
        match self {
            OrderStatus::Pending => 0,
            OrderStatus::Processing => 1,
            OrderStatus::Complete => 2,
        }
    }

    /// The number that stands for the status on the wire.
    pub fn code(self) -> (code: u32)
        ensures
            code == self.code_of(),
    {
        match self {
            OrderStatus::Pending => 0,
            OrderStatus::Processing => 1,
            OrderStatus::Complete => 2,
        }
    }
}

/// One line of an order.
#[derive(Clone, Copy, Debug, PartialEq, Eq, Structural)]
pub struct Item {
    pub product_id: u32,
    pub quantity: u32,
    /// The price as the bit pattern of a 32-bit IEEE-754 number.
    pub price_bits: u32,
}

/// An order as the order service hands it out.
#[derive(Debug)]
pub struct Order {
    pub order_id: String,
    pub customer_id: String,
    pub items: Vec<Item>,
    /// The code of an [`OrderStatus`].
    pub status: u32,
}

/// The mathematical value of an [`Order`].
pub ghost struct OrderView {
    pub order_id: Seq<char>,
    pub customer_id: Seq<char>,
    pub items: Seq<Item>,
    pub status: u32,
}

impl View for Order {
    type V = OrderView;

    open spec fn view(&self) -> OrderView {
        OrderView {
            order_id: self.order_id@,
            customer_id: self.customer_id@,
            items: self.items@,
            status: self.status,
        }
    }
}

impl Order {
    /// The same order, marked as being processed.
    pub fn start_processing(self) -> (order: Order)
        ensures
            order@ == (OrderView { status: OrderStatus::Processing.code_of(), ..self@ }),
    {
        Order {
            order_id: self.order_id,
            customer_id: self.customer_id,
            items: self.items,
            status: OrderStatus::Processing.code(),
        }
    }
}

/// The smallest customer number that is drawn.
pub const CUSTOMER_NUMBER_LOW: u32 = 1000000000;

/// The bound that every customer number drawn stays below.
pub const CUSTOMER_NUMBER_HIGH: u32 = 2147483647;

/// The bound that the number of lines of a drawn order, and the quantity
/// of each line, stay below. Both are at least one.
pub const SMALL_COUNT_HIGH: u32 = 5;

/// The bound that the product identifier of a drawn line stays below. It is
/// at least one.
pub const PRODUCT_ID_HIGH: u32 = 10;

/// Draws the identifier of a customer: the decimal numeral of a number from
/// 1000000000 up to, but not including, 2147483647.
pub fn draw_customer_id() -> (customer_id: String)
    ensures
        exists|number: nat|
            CUSTOMER_NUMBER_LOW <= number < CUSTOMER_NUMBER_HIGH && customer_id@
                == #[trigger] decimal(number),
{
    let mut generator = rand::thread_rng();
    let number = draw(&mut generator, CUSTOMER_NUMBER_LOW, CUSTOMER_NUMBER_HIGH);
    let mut customer_id = String::new();
    push_decimal(number as usize, &mut customer_id);
    assert(customer_id@ =~= decimal(number as nat));
    customer_id
}

/// Draws the number of lines of an order: from one to four.
pub fn draw_item_count() -> (count: u32)
    ensures
        1 <= count < SMALL_COUNT_HIGH,
{
    let mut generator = rand::thread_rng();
    draw(&mut generator, 1, SMALL_COUNT_HIGH)
}

/// Draws one line of an order at the price given: a product from one to
/// nine, in a quantity from one to four.
pub fn draw_item(price_bits: u32) -> (item: Item)
    ensures
        1 <= item.product_id < PRODUCT_ID_HIGH,
        1 <= item.quantity < SMALL_COUNT_HIGH,
        item.price_bits == price_bits,
{
    let mut generator = rand::thread_rng();
    let product_id = draw(&mut generator, 1, PRODUCT_ID_HIGH);
    let quantity = draw(&mut generator, 1, SMALL_COUNT_HIGH);
    Item { product_id, quantity, price_bits }
}

/// Whether `c` is white space: a character with the Unicode property
/// `White_Space`.
pub open spec fn is_white_space(c: char) -> bool {
    let code = c as u32;
    ||| 0x09 <= code <= 0x0D
    ||| code == 0x20
    ||| code == 0x85
    ||| code == 0xA0
    ||| code == 0x1680
    ||| 0x2000 <= code <= 0x200A
    ||| code == 0x2028
    ||| code == 0x2029
    ||| code == 0x202F
    ||| code == 0x205F
    ||| code == 0x3000
}

/// How many characters of white space `text` starts with.
pub open spec fn leading_white_space(text: Seq<char>) -> nat
    decreases text.len(),
{
    if text.len() > 0 && is_white_space(text.first()) {
        1 + leading_white_space(text.drop_first())
    } else {
        0
    }
}

/// How many characters of white space `text` ends with.
pub open spec fn trailing_white_space(text: Seq<char>) -> nat
    decreases text.len(),
{
    if text.len() > 0 && is_white_space(text.last()) {
        1 + trailing_white_space(text.drop_last())
    } else {
        0
    }
}

/// A text without the white space at its two ends.
pub open spec fn trimmed(text: Seq<char>) -> Seq<char> {
    let rest = text.skip(leading_white_space(text) as int);
    rest.take(rest.len() - trailing_white_space(rest))
}

/// Calls `str::trim`. Trusted: the result is the text without the leading
/// and the trailing white space, where white space is what the Unicode
/// property `White_Space` says.
#[verifier::external_body]
fn trim_text(text: &str) -> (inner: &str)
    ensures
        inner@ == trimmed(text@),
{
    text.trim()
}

/// A trimmed response body that announces no orders: nothing, or `null`.
pub open spec fn announces_nothing(inner: Seq<char>) -> bool {
    inner.len() == 0 || inner == "null"@
}

/// Whether a trimmed response body announces no orders.
pub fn trimmed_is_blank(inner: &str) -> (blank: bool)
    ensures
        blank == announces_nothing(inner@),
{
    proof {
        reveal_strlit("null");
    }
    let length = inner.unicode_len();
    if length == 0 {
        true
    } else if length == 4 {
        let same = inner.get_char(0) == 'n' && inner.get_char(1) == 'u' && inner.get_char(2) == 'l'
            && inner.get_char(3) == 'l';
        assert(same ==> inner@ =~= "null"@);
        same
    } else {
        false
    }
}

/// Whether a response body announces no orders: once the white space at its
/// ends is taken off, nothing is left, or `null`.
pub fn body_is_blank(body: &str) -> (blank: bool)
    ensures
        blank == announces_nothing(trimmed(body@)),
{
    trimmed_is_blank(trim_text(body))
}

/// What came of asking the order service for orders.
#[derive(Debug)]
pub enum Fetched {
    /// The request could not be sent, or no response came.
    Unreachable,
    /// The response carried an error status.
    Rejected,
    /// The response arrived and its body could not be read.
    Unreadable,
    /// The body of a successful response.
    Body(String),
}

/// What the worker does with what was fetched.
#[derive(Debug)]
pub enum FetchStep {
    /// Give up with an error.
    Fail,
    /// Go on with no orders.
    NoOrders,
    /// Decode the body as a list of orders.
    Decode(String),
}

/// The mathematical value of a [`Fetched`].
pub ghost enum FetchedView {
    Unreachable,
    Rejected,
    Unreadable,
    Body(Seq<char>),
}

/// The mathematical value of a [`FetchStep`].
pub ghost enum FetchStepView {
    Fail,
    NoOrders,
    Decode(Seq<char>),
}

impl View for Fetched {
    type V = FetchedView;

    open spec fn view(&self) -> FetchedView {
        match self {
            Fetched::Unreachable => FetchedView::Unreachable,
            Fetched::Rejected => FetchedView::Rejected,
            Fetched::Unreadable => FetchedView::Unreadable,
            Fetched::Body(body) => FetchedView::Body(body@),
        }
    }
}

impl View for FetchStep {
    type V = FetchStepView;

    open spec fn view(&self) -> FetchStepView {
        match self {
            FetchStep::Fail => FetchStepView::Fail,
            FetchStep::NoOrders => FetchStepView::NoOrders,
            FetchStep::Decode(body) => FetchStepView::Decode(body@),
        }
    }
}

/// The step that follows a fetch: an unreachable service means no orders
/// this time; an error status or an unreadable body is a failure; a body
/// that announces nothing means no orders; any other body is to be decoded.
pub open spec fn step_after(fetched: FetchedView) -> FetchStepView {
    match fetched {
        FetchedView::Unreachable => FetchStepView::NoOrders,
        FetchedView::Rejected => FetchStepView::Fail,
        FetchedView::Unreadable => FetchStepView::Fail,
        FetchedView::Body(body) => if announces_nothing(trimmed(body)) {
            FetchStepView::NoOrders
        } else {
            FetchStepView::Decode(body)
        },
    }
}

/// Decides what the worker does with what was fetched.
pub fn after_fetch(fetched: Fetched) -> (step: FetchStep)
    ensures
        step@ == step_after(fetched@),
{
    match fetched {
        Fetched::Unreachable => FetchStep::NoOrders,
        Fetched::Rejected => FetchStep::Fail,
        Fetched::Unreadable => FetchStep::Fail,
        Fetched::Body(body) => {
            if body_is_blank(body.as_str()) {
                FetchStep::NoOrders
            } else {
                FetchStep::Decode(body)
            }
        },
    }
}

/// The orders to go on with once the body was decoded: the ones decoded,
/// or none where the body was no list of orders.
pub fn after_decode(decoded: Option<Vec<Order>>) -> (orders: Vec<Order>)
    ensures
        match decoded {
            Some(list) => orders == list,
            None => orders@.len() == 0,
        },
{
    match decoded {
        Some(list) => list,
        None => Vec::new(),
    }
}

/// How the worker runs.
#[derive(Clone, Copy, Debug, PartialEq, Eq, Structural)]
pub enum RunMode {
    /// Fetch and process once, then stop.
    Once,
    /// Fetch and process again and again, so many times an hour.
    Repeat { orders_per_hour: u64 },
}

/// The mode for the hourly rate that the deployment configured; a rate
/// that is missing, or no number, counts as zero.
pub fn run_mode(configured_rate: Option<u64>) -> (mode: RunMode)
    ensures
        mode == match configured_rate {
            Some(rate) if rate > 0 => RunMode::Repeat { orders_per_hour: rate },
            _ => RunMode::Once,
        },
{
    match configured_rate {
        Some(rate) => if rate > 0 {
            RunMode::Repeat { orders_per_hour: rate }
        } else {
            RunMode::Once
        },
        None => RunMode::Once,
    }
}

} // verus!

//! Numbers as the bytes that hold them in memory.
use vstd::prelude::*;

verus! {

/// The order in which a machine keeps the bytes of a number.
#[derive(Clone, Copy, Debug, PartialEq, Eq, Structural)]
pub enum ByteOrder {
    /// The low byte first.
    Little,
    /// The high byte first.
    Big,
}

/// The bytes of a number of sixteen bits.
pub open spec fn short_bytes(order: ByteOrder, n: u16) -> Seq<u8> {
    match order {
        ByteOrder::Little => seq![(n % 256) as u8, (n / 256) as u8],
        ByteOrder::Big => seq![(n / 256) as u8, (n % 256) as u8],
    }
}

/// The bytes of a number of thirty-two bits.
pub open spec fn word_bytes(order: ByteOrder, n: u32) -> Seq<u8> {
    match order {
        ByteOrder::Little => short_bytes(order, (n % 65536) as u16) + short_bytes(
            order,
            (n / 65536) as u16,
        ),
        ByteOrder::Big => short_bytes(order, (n / 65536) as u16) + short_bytes(
            order,
            (n % 65536) as u16,
        ),
    }
}

/// A value that fills its memory with its bytes, without gaps.
pub trait Plain: Copy {
    /// The number of bytes of each value.
    spec fn width() -> nat;

    /// The bytes of the value.
    spec fn bytes(self, order: ByteOrder) -> Seq<u8>;

    /// Each value has that many bytes.
    proof fn has_width(self, order: ByteOrder)
        ensures
            self.bytes(order).len() == Self::width(),
    ;

    /// Appends the bytes of the value.
    fn push_bytes(self, order: ByteOrder, out: &mut Vec<u8>)
        ensures
            final(out)@ == old(out)@ + self.bytes(order),
    ;
}

impl Plain for u16 {
    open spec fn width() -> nat {
        2
    }

    open spec fn bytes(self, order: ByteOrder) -> Seq<u8> {
        short_bytes(order, self)
    }

    proof fn has_width(self, order: ByteOrder) {
    }

    fn push_bytes(self, order: ByteOrder, out: &mut Vec<u8>) {
        let low: u8 = (self % 256) as u8;
        let high: u8 = (self / 256) as u8;
        match order {
            ByteOrder::Little => {
                out.push(low);
                out.push(high);
            },
            ByteOrder::Big => {
                out.push(high);
                out.push(low);
            },
        }
        assert(self.bytes(order) == short_bytes(order, self));
        assert(out@ =~= old(out)@ + self.bytes(order));
    }
}

impl Plain for u32 {
    open spec fn width() -> nat {
        4
    }

    open spec fn bytes(self, order: ByteOrder) -> Seq<u8> {
        word_bytes(order, self)
    }

    proof fn has_width(self, order: ByteOrder) {
    }

    fn push_bytes(self, order: ByteOrder, out: &mut Vec<u8>) {
        let low: u16 = (self % 65536) as u16;
        let high: u16 = (self / 65536) as u16;
        match order {
            ByteOrder::Little => {
                low.push_bytes(order, out);
                high.push_bytes(order, out);
            },
            ByteOrder::Big => {
                high.push_bytes(order, out);
                low.push_bytes(order, out);
            },
        }
        assert(self.bytes(order) == word_bytes(order, self));
        assert(out@ =~= old(out)@ + self.bytes(order));
    }
}

/// The bytes of values, one after the other.
pub open spec fn bytes_of<T: Plain>(order: ByteOrder, values: Seq<T>) -> Seq<u8>
    decreases values.len(),
{
    if values.len() == 0 {
        Seq::empty()
    } else {
        bytes_of(order, values.drop_last()) + values.last().bytes(order)
    }
}

/// The bytes of a number as `u16::to_ne_bytes` of `std` gives them. Claimed: they are in one of
/// the two orders. Which one depends on the machine and is left unsaid.
#[verifier::external_body]
fn native_bytes(n: u16) -> (r: [u8; 2])
    ensures
        r@ == short_bytes(ByteOrder::Little, n) || r@ == short_bytes(ByteOrder::Big, n),
{
    n.to_ne_bytes()
}

/// The order of this machine. Either order can come back, and the bytes that the machine keeps of
/// one decide which, by [`order_of_one`].
fn native_order() -> ByteOrder {
    order_of_one(native_bytes(1))
}

/// The order in which the number one has these bytes.
pub fn order_of_one(bytes: [u8; 2]) -> (r: ByteOrder)
    requires
        bytes@ == short_bytes(ByteOrder::Little, 1) || bytes@ == short_bytes(ByteOrder::Big, 1),
    ensures
        bytes@ == short_bytes(r, 1),
        forall|order: ByteOrder| bytes@ == #[trigger] short_bytes(order, 1) ==> order == r,
{
    assert(short_bytes(ByteOrder::Little, 1)[0] == 1);
    assert(short_bytes(ByteOrder::Big, 1)[0] == 0);
    if bytes[0] == 1 {
        ByteOrder::Little
    } else {
        ByteOrder::Big
    }
}

/// The bytes of values, in a given order.
pub fn bytes_in_order<T: Plain>(order: ByteOrder, values: &[T]) -> (r: Vec<u8>)
    ensures
        r@ == bytes_of(order, values@),
{
    let mut out: Vec<u8> = Vec::new();
    let mut i: usize = 0;
    assert(values@.take(0) =~= Seq::empty());
    while i < values.len()
        invariant
            0 <= i <= values@.len(),
            out@ == bytes_of(order, values@.take(i as int)),
        decreases values@.len() - i,
    {
        values[i].push_bytes(order, &mut out);
        assert(values@.take(i + 1).drop_last() =~= values@.take(i as int));
        i += 1;
    }
    assert(values@.take(i as int) =~= values@);
    out
}

/// The bytes that hold values in the memory of this machine.
pub fn as_byte_slice<T: Plain>(slice: &[T]) -> (r: Vec<u8>)
    ensures
        r@ == bytes_of(ByteOrder::Little, slice@) || r@ == bytes_of(ByteOrder::Big, slice@),
{
    bytes_in_order(native_order(), slice)
}

/// Values take their number times their width.
pub proof fn bytes_have_width<T: Plain>(order: ByteOrder, values: Seq<T>)
    ensures
        bytes_of(order, values).len() == values.len() * T::width(),
    decreases values.len(),
{
    if values.len() > 0 {
        let front = values.drop_last();
        bytes_have_width(order, front);
        values.last().has_width(order);
        assert(values.len() * T::width() == front.len() * T::width() + T::width())
            by (nonlinear_arith)
            requires
                values.len() == front.len() + 1,
        ;
    } else {
        assert(values.len() * T::width() == 0) by (nonlinear_arith)
            requires
                values.len() == 0,
        ;
    }
}

/// The bytes of values in a row are the bytes of the first ones and then those of the others,
/// wherever the row is cut.
pub proof fn bytes_can_be_cut<T: Plain>(order: ByteOrder, values: Seq<T>, k: int)
    requires
        0 <= k <= values.len(),
    ensures
        bytes_of(order, values) == bytes_of(order, values.take(k)) + bytes_of(
            order,
            values.skip(k),
        ),
    decreases values.len(),
{
    let first = values.take(k);
    let second = values.skip(k);
    if k == values.len() {
        assert(first =~= values);
        assert(bytes_of(order, values) =~= bytes_of(order, first) + bytes_of(order, second));
    } else {
        let front = values.drop_last();
        bytes_can_be_cut(order, front, k);
        assert(front.take(k) =~= first);
        assert(front.skip(k) =~= second.drop_last());
        assert(bytes_of(order, values) =~= bytes_of(order, first) + bytes_of(order, second));
    }
}

/// The bytes of a value stand after those of the values before it.
pub proof fn bytes_stand_in_order<T: Plain>(order: ByteOrder, values: Seq<T>, i: int)
    requires
        0 <= i < values.len(),
    ensures
        bytes_of(order, values).subrange(i * T::width(), i * T::width() + T::width())
            == values[i].bytes(order),
{
    let upto = values.take(i + 1);
    let before = values.take(i);
    bytes_can_be_cut(order, values, i + 1);
    assert(upto.drop_last() =~= before);
    bytes_have_width(order, before);
    values[i].has_width(order);
    assert(bytes_of(order, upto) == bytes_of(order, before) + values[i].bytes(order));
    assert(before.len() * T::width() == i * T::width());
    assert(bytes_of(order, values).subrange(i * T::width(), i * T::width() + T::width())
        =~= values[i].bytes(order));
}

/// A number can be read back from its bytes: no two numbers have the same bytes.
pub proof fn bytes_tell_numbers(order: ByteOrder, m: u32, n: u32)
    requires
        word_bytes(order, m) == word_bytes(order, n),
    ensures
        m == n,
{
    let a = word_bytes(order, m);
    let b = word_bytes(order, n);
    let (first, second) = match order {
        ByteOrder::Little => ((m % 65536) as u16, (m / 65536) as u16),
        ByteOrder::Big => ((m / 65536) as u16, (m % 65536) as u16),
    };
    let (third, fourth) = match order {
        ByteOrder::Little => ((n % 65536) as u16, (n / 65536) as u16),
        ByteOrder::Big => ((n / 65536) as u16, (n % 65536) as u16),
    };
    assert(a.take(2) =~= short_bytes(order, first));
    assert(b.take(2) =~= short_bytes(order, third));
    assert(a.skip(2) =~= short_bytes(order, second));
    assert(b.skip(2) =~= short_bytes(order, fourth));
    bytes_tell_shorts(order, first, third);
    bytes_tell_shorts(order, second, fourth);
}

proof fn bytes_tell_shorts(order: ByteOrder, m: u16, n: u16)
    requires
        short_bytes(order, m) == short_bytes(order, n),
    ensures
        m == n,
{
    let a = short_bytes(order, m);
    let b = short_bytes(order, n);
    assert(a[0] == b[0]);
    assert(a[1] == b[1]);
}

/// In the order with the low byte first, each byte counts for 256 times the one before it; in the
/// other order the bytes are the same ones, from the last to the first.
pub proof fn bytes_count_for_numbers(n: u16, m: u32)
    ensures
        ({
            let b = n.bytes(ByteOrder::Little);
            &&& b.len() == 2
            &&& n == b[0] + 256 * b[1]
            &&& n.bytes(ByteOrder::Big) == seq![b[1], b[0]]
        }),
        ({
            let b = m.bytes(ByteOrder::Little);
            &&& b.len() == 4
            &&& m == b[0] + 256 * b[1] + 65536 * b[2] + 16777216 * b[3]
            &&& m.bytes(ByteOrder::Big) == seq![b[3], b[2], b[1], b[0]]
        }),
        short_bytes(ByteOrder::Little, n) == n.bytes(ByteOrder::Little),
        short_bytes(ByteOrder::Big, n) == n.bytes(ByteOrder::Big),
{
    let b = m.bytes(ByteOrder::Little);
    let low = (m % 65536) as u16;
    let high = (m / 65536) as u16;
    assert(b[0] == (low % 256) as u8 && b[1] == (low / 256) as u8);
    assert(b[2] == (high % 256) as u8 && b[3] == (high / 256) as u8);
    assert(low == b[0] + 256 * b[1]);
    assert(high == b[2] + 256 * b[3]);
    assert(m == low + 65536 * high);
    assert(m.bytes(ByteOrder::Big) =~= seq![b[3], b[2], b[1], b[0]]);
    assert(n.bytes(ByteOrder::Big) =~= seq![
        n.bytes(ByteOrder::Little)[1],
        n.bytes(ByteOrder::Little)[0],
    ]);
}

/// The bytes of one value are its bytes, and no values have no bytes.
pub proof fn one_value_has_its_bytes<T: Plain>(order: ByteOrder, value: T)
    ensures
        bytes_of(order, seq![value]) == value.bytes(order),
        bytes_of(order, Seq::<T>::empty()) == Seq::<u8>::empty(),
{
    let values = seq![value];
    assert(values.drop_last() =~= Seq::empty());
    assert(bytes_of(order, values.drop_last()) =~= Seq::empty());
    assert(values.last() == value);
    assert(bytes_of(order, values) =~= value.bytes(order));
}

} // verus!

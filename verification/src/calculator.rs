use vstd::prelude::*;
use vstd::string::StringExecFns;

verus! {

/// The kind of arithmetic operation the calculator performs.
#[derive(Clone, Copy)]
pub enum OperationType {
    Addition,
    Subtraction,
    Multiplication,
}

/// The exact mathematical result of an operation when it fits the
/// 64-bit signed range, nothing otherwise.
pub open spec fn perform_spec(op: OperationType, x: i64, y: i64) -> Option<i64> {
    let v = match op {
        OperationType::Addition => x + y,
        OperationType::Subtraction => x - y,
        OperationType::Multiplication => x * y,
    };
    if i64::MIN <= v <= i64::MAX {
        Some(v as i64)
    } else {
        None
    }
}

/// The one-character sign of each operation.
pub open spec fn sign_spec(op: OperationType) -> Seq<char> {
    match op {
        OperationType::Addition => seq!['+'],
        OperationType::Subtraction => seq!['-'],
        OperationType::Multiplication => seq!['*'],
    }
}

impl OperationType {
    /// The string representation of the operation sign.
    pub fn get_sign(&self) -> (r: &str)
        ensures
            r@ == sign_spec(*self),
    {
        match self {
            OperationType::Addition => {
                proof {
                    reveal_strlit("+");
                    assert("+"@ =~= seq!['+']);
                }
                "+"
            },
            OperationType::Subtraction => {
                proof {
                    reveal_strlit("-");
                    assert("-"@ =~= seq!['-']);
                }
                "-"
            },
            OperationType::Multiplication => {
                proof {
                    reveal_strlit("*");
                    assert("*"@ =~= seq!['*']);
                }
                "*"
            },
        }
    }

    /// Perform the operation on two numbers with overflow protection.
    pub fn perform(&self, x: i64, y: i64) -> (r: Option<i64>)
        ensures
            r == perform_spec(*self, x, y),
    {
        match self {
            OperationType::Addition => x.checked_add(y),
            OperationType::Subtraction => x.checked_sub(y),
            OperationType::Multiplication => x.checked_mul(y),
        }
    }
}

/// One recorded calculation: its operands and its kind.
#[derive(Clone, Copy)]
pub struct Operation {
    pub first_num: i64,
    pub second_num: i64,
    pub operation_type: OperationType,
}

/// The result an operation evaluates to, where it is representable.
pub open spec fn op_result(op: Operation) -> Option<i64> {
    perform_spec(op.operation_type, op.first_num, op.second_num)
}

impl Operation {
    /// Record an operation from its parts.
    pub fn new(first_num: i64, second_num: i64, operation_type: OperationType) -> (r: Operation)
        ensures
            r == (Operation { first_num, second_num, operation_type }),
    {
        Operation { first_num, second_num, operation_type }
    }
}

/// A calculator keeping the history of its successful operations.
pub struct Calculator {
    pub history: Vec<Operation>,
}

/// The decimal digit character for one digit value.
pub open spec fn dec_digit(d: int) -> char {
    if d == 0 {
        '0'
    } else if d == 1 {
        '1'
    } else if d == 2 {
        '2'
    } else if d == 3 {
        '3'
    } else if d == 4 {
        '4'
    } else if d == 5 {
        '5'
    } else if d == 6 {
        '6'
    } else if d == 7 {
        '7'
    } else if d == 8 {
        '8'
    } else {
        '9'
    }
}

/// The decimal digit string of a non-negative number, most significant
/// digit first.
pub open spec fn dec_str(n: int) -> Seq<char>
    decreases n,
{
    if n < 10 {
        seq![dec_digit(n)]
    } else {
        dec_str(n / 10).push(dec_digit(n % 10))
    }
}

/// The decimal string of a signed number, with a leading minus sign
/// when it is negative.
pub open spec fn int_str(v: int) -> Seq<char> {
    if v < 0 {
        seq!['-'] + dec_str(-v)
    } else {
        dec_str(v)
    }
}

/// One history line: "index: first sign second = result" and a newline.
pub open spec fn line_spec(index: int, op: Operation) -> Seq<char> {
    int_str(index) + seq![':', ' '] + int_str(op.first_num as int) + seq![' '] + sign_spec(
        op.operation_type,
    ) + seq![' '] + int_str(op.second_num as int) + seq![' ', '=', ' '] + (match op_result(op) {
        Some(v) => int_str(v as int),
        None => Seq::<char>::empty(),
    }) + seq!['\n']
}

/// The first `n` history lines, concatenated in order.
pub open spec fn show_upto(h: Seq<Operation>, n: int) -> Seq<char>
    decreases n,
{
    if n <= 0 {
        Seq::<char>::empty()
    } else {
        show_upto(h, n - 1) + line_spec(n - 1, h[n - 1])
    }
}

/// The whole formatted history.
pub open spec fn show_spec(h: Seq<Operation>) -> Seq<char> {
    show_upto(h, h.len() as int)
}

/// Append one decimal digit character.
fn push_digit(s: &mut String, d: u64)
    requires
        d < 10,
    ensures
        final(s)@ == old(s)@ + seq![dec_digit(d as int)],
{
    if d == 0 {
        proof {
            reveal_strlit("0");
        }
        s.append("0");
    } else if d == 1 {
        proof {
            reveal_strlit("1");
        }
        s.append("1");
    } else if d == 2 {
        proof {
            reveal_strlit("2");
        }
        s.append("2");
    } else if d == 3 {
        proof {
            reveal_strlit("3");
        }
        s.append("3");
    } else if d == 4 {
        proof {
            reveal_strlit("4");
        }
        s.append("4");
    } else if d == 5 {
        proof {
            reveal_strlit("5");
        }
        s.append("5");
    } else if d == 6 {
        proof {
            reveal_strlit("6");
        }
        s.append("6");
    } else if d == 7 {
        proof {
            reveal_strlit("7");
        }
        s.append("7");
    } else if d == 8 {
        proof {
            reveal_strlit("8");
        }
        s.append("8");
    } else {
        proof {
            reveal_strlit("9");
        }
        s.append("9");
    }
    assert(s@ =~= old(s)@ + seq![dec_digit(d as int)]);
}

/// Append the decimal digits of a non-negative number.
fn push_digits(s: &mut String, n: u64)
    ensures
        final(s)@ == old(s)@ + dec_str(n as int),
    decreases n,
{
    if n < 10 {
        push_digit(s, n);
    } else {
        assert(n / 10 < n) by {
            vstd::arithmetic::div_mod::lemma_div_is_strictly_smaller(n as int, 10);
        }
        push_digits(s, n / 10);
        push_digit(s, n % 10);
        assert(s@ =~= old(s)@ + dec_str(n as int));
    }
}

/// Append the decimal form of a signed number.
fn push_i64(s: &mut String, v: i64)
    ensures
        final(s)@ == old(s)@ + int_str(v as int),
{
    if v < 0 {
        proof {
            reveal_strlit("-");
        }
        s.append("-");
        let wide: i128 = -(v as i128);
        assert(1 <= wide <= u64::MAX);
        let m: u64 = wide as u64;
        push_digits(s, m);
        assert(s@ =~= old(s)@ + int_str(v as int));
    } else {
        push_digits(s, v as u64);
    }
}

impl Calculator {
    /// Every recorded operation succeeded when it was stored, so its
    /// result is representable and the history can always be shown.
    pub open spec fn wf(self) -> bool {
        forall|i: int|
            0 <= i < self.history@.len() ==> (#[trigger] op_result(self.history@[i])) is Some
    }

    /// A calculator with empty history.
    pub fn new() -> (c: Calculator)
        ensures
            c.wf(),
            c.history@.len() == 0,
    {
        Calculator { history: Vec::new() }
    }

    /// Add, and record the operation when it succeeds.
    pub fn addition(&mut self, x: i64, y: i64) -> (r: Option<i64>)
        requires
            old(self).wf(),
        ensures
            final(self).wf(),
            r == perform_spec(OperationType::Addition, x, y),
            r is Some ==> final(self).history@ == old(self).history@.push(
                Operation { first_num: x, second_num: y, operation_type: OperationType::Addition },
            ),
            r is None ==> final(self).history@ == old(self).history@,
    {
        let add = OperationType::Addition.perform(x, y);
        if add.is_some() {
            self.history.push(Operation::new(x, y, OperationType::Addition));
        }
        add
    }

    /// Subtract, and record the operation when it succeeds.
    pub fn subtraction(&mut self, x: i64, y: i64) -> (r: Option<i64>)
        requires
            old(self).wf(),
        ensures
            final(self).wf(),
            r == perform_spec(OperationType::Subtraction, x, y),
            r is Some ==> final(self).history@ == old(self).history@.push(
                Operation {
                    first_num: x,
                    second_num: y,
                    operation_type: OperationType::Subtraction,
                },
            ),
            r is None ==> final(self).history@ == old(self).history@,
    {
        let sub = OperationType::Subtraction.perform(x, y);
        if sub.is_some() {
            self.history.push(Operation::new(x, y, OperationType::Subtraction));
        }
        sub
    }

    /// Multiply, and record the operation when it succeeds.
    pub fn multiplication(&mut self, x: i64, y: i64) -> (r: Option<i64>)
        requires
            old(self).wf(),
        ensures
            final(self).wf(),
            r == perform_spec(OperationType::Multiplication, x, y),
            r is Some ==> final(self).history@ == old(self).history@.push(
                Operation {
                    first_num: x,
                    second_num: y,
                    operation_type: OperationType::Multiplication,
                },
            ),
            r is None ==> final(self).history@ == old(self).history@,
    {
        let mul = OperationType::Multiplication.perform(x, y);
        if mul.is_some() {
            self.history.push(Operation::new(x, y, OperationType::Multiplication));
        }
        mul
    }

    /// The formatted history, one line per operation:
    /// "index: first sign second = result".
    pub fn show_history(&self) -> (r: String)
        requires
            self.wf(),
        ensures
            r@ == show_spec(self.history@),
    {
        proof {
            reveal_strlit(": ");
            reveal_strlit(" ");
            reveal_strlit(" = ");
            reveal_strlit("\n");
        }
        let mut res = String::new();
        let n = self.history.len();
        let mut i: usize = 0;
        while i < n
            invariant
                self.wf(),
                n == self.history@.len(),
                0 <= i <= n,
                res@ == show_upto(self.history@, i as int),
                ": "@ == seq![':', ' '],
                " "@ == seq![' '],
                " = "@ == seq![' ', '=', ' '],
                "\n"@ == seq!['\n'],
            decreases n - i,
        {
            let op = self.history[i];
            push_digits(&mut res, i as u64);
            res.append(": ");
            push_i64(&mut res, op.first_num);
            res.append(" ");
            res.append(op.operation_type.get_sign());
            res.append(" ");
            push_i64(&mut res, op.second_num);
            res.append(" = ");
            assert(op_result(op) is Some);
            let val = op.operation_type.perform(op.first_num, op.second_num).unwrap();
            push_i64(&mut res, val);
            res.append("\n");
            proof {
                assert(res@ =~= show_upto(self.history@, i as int + 1));
            }
            i += 1;
        }
        res
    }

    /// Repeat an operation from history by index: record it again and
    /// return its result, or nothing when the index is out of range.
    pub fn repeat(&mut self, operation_index: usize) -> (r: Option<i64>)
        requires
            old(self).wf(),
        ensures
            final(self).wf(),
            operation_index >= old(self).history@.len() ==> r is None && final(self).history@
                == old(self).history@,
            operation_index < old(self).history@.len() ==> {
                let op = old(self).history@[operation_index as int];
                &&& r == op_result(op)
                &&& r is Some
                &&& final(self).history@ == old(self).history@.push(op)
            },
    {
        if operation_index < self.history.len() {
            let op = self.history[operation_index];
            let res = op.operation_type.perform(op.first_num, op.second_num);
            self.history.push(op);
            res
        } else {
            None
        }
    }

    /// Clear all operations from history.
    pub fn clear_history(&mut self)
        ensures
            final(self).wf(),
            final(self).history@.len() == 0,
    {
        self.history = Vec::new();
    }
}

} // verus!

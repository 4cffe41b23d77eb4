use vstd::prelude::*;

verus! {

/// What the power demos compute: a value times itself, wide enough never
/// to overflow.
pub fn square(value: i32) -> (r: i64)
    ensures
        r == value * value,
{
    let wide = value as i64;
    proof {
        assert(wide * wide <= 0x8000_0000i64 * 0x8000_0000i64) by (nonlinear_arith)
            requires
                -0x8000_0000i64 <= wide <= 0x8000_0000i64,
        ;
        assert(wide * wide >= 0) by (nonlinear_arith);
    }
    wide * wide
}

/// The separator demos all square the same small number, whatever token
/// separates the arguments.
pub fn test_separators() {
    let _ = square(2);
    let _ = square(2);
    let _ = square(2);
}

/// A greeting line from a title and a name.
pub fn greeting(title: &str, name: &str) -> (s: String)
    ensures
        s@ == "Hello "@ + title@ + ". "@ + name@,
{
    let mut s = "Hello ".to_owned();
    s.append(title);
    s.append(". ");
    s.append(name);
    s
}

/// The pattern demo: two greetings built from fixed titles and names.
pub fn test_greetings() -> (lines: Vec<String>)
    ensures
        lines@.len() == 2,
        lines@[0]@ == "Hello "@ + "Mr."@ + ". "@ + "Matheus"@,
        lines@[1]@ == "Hello "@ + "Mrs."@ + ". "@ + "Marta"@,
{
    let mut lines: Vec<String> = Vec::new();
    lines.push(greeting("Mr.", "Matheus"));
    lines.push(greeting("Mrs.", "Marta"));
    lines
}

/// A greeting line for a mister.
pub fn greeting_mr(name: &str) -> (s: String)
    ensures
        s@ == "Hello Mr. "@ + name@,
{
    let mut s = "Hello Mr. ".to_owned();
    s.append(name);
    s
}

/// A greeting line for a missus.
pub fn greeting_mrs(name: &str) -> (s: String)
    ensures
        s@ == "Hello Mrs. "@ + name@,
{
    let mut s = "Hello Mrs. ".to_owned();
    s.append(name);
    s
}

/// The second pattern demo: the title is picked by the pattern itself.
pub fn test_greetings_v2() -> (lines: Vec<String>)
    ensures
        lines@.len() == 2,
        lines@[0]@ == "Hello Mr. "@ + "Matheus"@,
        lines@[1]@ == "Hello Mrs. "@ + "Marta"@,
{
    let mut lines: Vec<String> = Vec::new();
    lines.push(greeting_mr("Matheus"));
    lines.push(greeting_mrs("Marta"));
    lines
}

/// The sum of a sequence of machine integers, as a mathematical integer.
pub open spec fn sum_of(s: Seq<i32>) -> int
    decreases s,
{
    if s.len() == 0 {
        0
    } else {
        sum_of(s.drop_last()) + s.last()
    }
}

/// Extending a prefix by one element adds that element to its sum.
proof fn lemma_sum_of_take(s: Seq<i32>, i: int)
    requires
        0 <= i < s.len(),
    ensures
        sum_of(s.take(i + 1)) == sum_of(s.take(i)) + s[i],
{
    assert(s.take(i + 1).drop_last() =~= s.take(i));
}

/// A sum of machine integers is bounded by how many there are.
proof fn lemma_sum_of_bound(s: Seq<i32>)
    ensures
        -(s.len() as int) * 0x8000_0000 <= sum_of(s) <= (s.len() as int) * 0x8000_0000,
    decreases s,
{
    if s.len() > 0 {
        lemma_sum_of_bound(s.drop_last());
    }
}

/// Folds a short list of summands the way the recursive sum demo does.
pub fn sum_v2(first: i32, rest: &[i32]) -> (r: i64)
    requires
        rest@.len() < 1000,
    ensures
        r == first + sum_of(rest@),
{
    let mut total: i64 = first as i64;
    let mut i: usize = 0;
    proof {
        assert(rest@.take(0) =~= Seq::<i32>::empty());
    }
    while i < rest.len()
        invariant
            0 <= i <= rest@.len(),
            rest@.len() < 1000,
            total == first + sum_of(rest@.take(i as int)),
        decreases rest@.len() - i,
    {
        proof {
            lemma_sum_of_take(rest@, i as int);
            lemma_sum_of_bound(rest@.take(i as int));
        }
        total = total + rest[i] as i64;
        i += 1;
    }
    proof {
        assert(rest@.take(rest@.len() as int) =~= rest@);
    }
    total
}

/// The designator demos expand to nothing; only the expression demo has
/// anything to run.
pub fn test_mult_types() {
}

/// Adds two machine integers.
pub fn sum(a: i32, b: i32) -> (r: i32)
    requires
        i32::MIN <= a + b <= i32::MAX,
    ensures
        r == a + b,
{
    a + b
}

/// The expression-designator demo.
pub fn use_expression() {
}

/// The literal-designator demo.
pub fn use_literal() {
}

/// The statement-designator demo.
pub fn use_statement() {
}

/// The block-designator demo.
pub fn use_block() {
}

/// The type-designator demo.
pub fn use_types() {
}

/// The visibility-designator demo.
pub fn use_visibility() {
}

/// The lifetime-designator demo.
pub fn use_lifetime() {
}

/// The struct the struct-building demo declares: two named integer
/// fields.
pub struct Hello {
    pub a: i32,
    pub b: i32,
}

/// A function the code-generation demo declares.
pub fn generated_func() -> (r: u32)
    ensures
        r == 1,
{
    1
}

/// A function wrapped by the stream-inspection demo, which leaves it as
/// it stands.
pub fn ordinary_function3() -> (r: u32)
    ensures
        r == 30,
{
    30
}

} // verus!

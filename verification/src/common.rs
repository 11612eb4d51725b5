//! Values shared by the contracts: decimal rendering of amounts, the
//! attributes and bank transfers that a response carries.

use vstd::prelude::*;

verus! {

/// The ASCII character of a decimal digit.
pub open spec fn digit_char(d: nat) -> char {
    if d == 0 { '0' }
    else if d == 1 { '1' }
    else if d == 2 { '2' }
    else if d == 3 { '3' }
    else if d == 4 { '4' }
    else if d == 5 { '5' }
    else if d == 6 { '6' }
    else if d == 7 { '7' }
    else if d == 8 { '8' }
    else { '9' }
}

/// The decimal notation of a natural number, most significant digit first,
/// without leading zeros (zero is written "0").
pub open spec fn decimal(n: nat) -> Seq<char>
    decreases n,
{
    if n < 10 {
        seq![digit_char(n)]
    } else {
        decimal(n / 10) + seq![digit_char(n % 10)]
    }
}

fn digit_str(d: u128) -> (s: &'static str)
    requires
        d < 10,
    ensures
        s@ == seq![digit_char(d as nat)],
{
    proof {
        reveal_strlit("0");
        reveal_strlit("1");
        reveal_strlit("2");
        reveal_strlit("3");
        reveal_strlit("4");
        reveal_strlit("5");
        reveal_strlit("6");
        reveal_strlit("7");
        reveal_strlit("8");
        reveal_strlit("9");
    }
    if d == 0 { "0" }
    else if d == 1 { "1" }
    else if d == 2 { "2" }
    else if d == 3 { "3" }
    else if d == 4 { "4" }
    else if d == 5 { "5" }
    else if d == 6 { "6" }
    else if d == 7 { "7" }
    else if d == 8 { "8" }
    else { "9" }
}

/// Appends the decimal notation of `n` to `s`.
pub fn append_decimal(s: &mut String, n: u128)
    ensures
        final(s)@ == old(s)@ + decimal(n as nat),
    decreases n,
{
    if n >= 10 {
        append_decimal(s, n / 10);
    }
    let d = digit_str(n % 10);
    s.append(d);
}

/// The decimal notation of an amount, as `Uint128`'s `Display` writes it.
pub fn decimal_string(n: u128) -> (s: String)
    ensures
        s@ == decimal(n as nat),
{
    let mut s = String::new();
    append_decimal(&mut s, n);
    assert(s@ =~= decimal(n as nat));
    s
}


/// Declares `cosmwasm_std::StdError`, which errors of the host (such as an
/// address that fails validation) carry through the contracts unchanged.
#[verifier::external_type_specification]
#[verifier::external_body]
pub struct ExStdError(cosmwasm_std::StdError);

/// The arithmetic operation that overflowed.
#[derive(Debug, Clone, Copy, PartialEq, Eq, Structural)]
pub enum OverflowOperation {
    Add,
    Sub,
    Mul,
    Pow,
    Shr,
    Shl,
}

/// An overflow in checked amount arithmetic, naming the operation.
#[derive(Debug, Clone, Copy, PartialEq, Eq, Structural)]
pub struct OverflowError {
    pub operation: OverflowOperation,
}

/// Checked addition of amounts: the sum, or the overflow it causes.
pub fn checked_add_amount(a: u128, b: u128) -> (r: Result<u128, OverflowError>)
    ensures
        a + b <= u128::MAX ==> r == Ok::<u128, OverflowError>((a + b) as u128),
        a + b > u128::MAX ==> r == Err::<u128, OverflowError>(OverflowError { operation: OverflowOperation::Add }),
{
    match a.checked_add(b) {
        Some(c) => Ok(c),
        None => Err(OverflowError { operation: OverflowOperation::Add }),
    }
}

/// Checked subtraction of amounts: the difference, or the underflow it causes.
pub fn checked_sub_amount(a: u128, b: u128) -> (r: Result<u128, OverflowError>)
    ensures
        a >= b ==> r == Ok::<u128, OverflowError>((a - b) as u128),
        a < b ==> r == Err::<u128, OverflowError>(OverflowError { operation: OverflowOperation::Sub }),
{
    match a.checked_sub(b) {
        Some(c) => Ok(c),
        None => Err(OverflowError { operation: OverflowOperation::Sub }),
    }
}

/// A amount of one denomination.
#[derive(Debug)]
pub struct Coin {
    pub denom: String,
    pub amount: u128,
}

/// The amount of the first coin of `denom` in `funds`, or zero when none is.
pub open spec fn sent_amount(funds: Seq<Coin>, denom: Seq<char>) -> u128
    decreases funds.len(),
{
    if funds.len() == 0 {
        0
    } else if funds[0].denom@ == denom {
        funds[0].amount
    } else {
        sent_amount(funds.drop_first(), denom)
    }
}

/// The amount of `denom` that came with a message: that of the first coin of
/// that denomination, zero when there is none.
pub fn find_sent_amount(funds: &Vec<Coin>, denom: &String) -> (amount: u128)
    ensures
        amount == sent_amount(funds@, denom@),
{
    let mut i: usize = 0;
    assert(funds@.skip(0) =~= funds@);
    while i < funds.len()
        invariant
            i <= funds@.len(),
            sent_amount(funds@, denom@) == sent_amount(funds@.skip(i as int), denom@),
        decreases funds@.len() - i,
    {
        assert(funds@.skip(i as int).drop_first() =~= funds@.skip(i + 1));
        assert(funds@.skip(i as int)[0] == funds@[i as int]);
        if funds[i].denom == *denom {
            return funds[i].amount;
        }
        i = i + 1;
    }
    0
}

/// A message the contract asks the chain to carry out after it returns.
#[derive(Debug)]
pub enum Message {
    /// A bank transfer of `amount` of `denom` to `to_address`.
    BankSend { to_address: String, denom: String, amount: u128 },
    /// Creation of the token-factory denomination `factory/{sender}/{subdenom}`.
    CreateDenom { sender: String, subdenom: String },
    /// Metadata of a token-factory denomination.
    SetTokenMetadata { denom: String, name: String, symbol: String, decimals: u8 },
    /// Minting of `amount` of `denom` by `sender` to `mint_to`.
    MintTokens { sender: String, denom: String, amount: u128, mint_to: String },
}

/// The contents of a message.
pub enum MessageView {
    BankSend { to_address: Seq<char>, denom: Seq<char>, amount: u128 },
    CreateDenom { sender: Seq<char>, subdenom: Seq<char> },
    SetTokenMetadata { denom: Seq<char>, name: Seq<char>, symbol: Seq<char>, decimals: u8 },
    MintTokens { sender: Seq<char>, denom: Seq<char>, amount: u128, mint_to: Seq<char> },
}

impl View for Message {
    type V = MessageView;

    open spec fn view(&self) -> MessageView {
        match self {
            Message::BankSend { to_address, denom, amount } => MessageView::BankSend {
                to_address: to_address@,
                denom: denom@,
                amount: *amount,
            },
            Message::CreateDenom { sender, subdenom } => MessageView::CreateDenom {
                sender: sender@,
                subdenom: subdenom@,
            },
            Message::SetTokenMetadata { denom, name, symbol, decimals } => MessageView::SetTokenMetadata {
                denom: denom@,
                name: name@,
                symbol: symbol@,
                decimals: *decimals,
            },
            Message::MintTokens { sender, denom, amount, mint_to } => MessageView::MintTokens {
                sender: sender@,
                denom: denom@,
                amount: *amount,
                mint_to: mint_to@,
            },
        }
    }
}

/// A key and value that a response reports.
#[derive(Debug)]
pub struct Attribute {
    pub key: String,
    pub value: String,
}

/// What a successful execution hands back: messages to dispatch and
/// attributes to report, in order.
#[derive(Debug)]
pub struct ContractResponse {
    pub messages: Vec<Message>,
    pub attributes: Vec<Attribute>,
}

impl ContractResponse {
    /// The messages, by their contents.
    pub open spec fn messages_view(&self) -> Seq<MessageView> {
        self.messages@.map_values(|m: Message| m@)
    }

    /// The attributes as (key, value) pairs.
    pub open spec fn attributes_view(&self) -> Seq<(Seq<char>, Seq<char>)> {
        self.attributes@.map_values(|a: Attribute| (a.key@, a.value@))
    }

    /// An empty response.
    pub fn new() -> (r: ContractResponse)
        ensures
            r.messages_view() == Seq::<MessageView>::empty(),
            r.attributes_view() == Seq::<(Seq<char>, Seq<char>)>::empty(),
    {
        let r = ContractResponse { messages: Vec::new(), attributes: Vec::new() };
        assert(r.messages_view() =~= Seq::<MessageView>::empty());
        assert(r.attributes_view() =~= Seq::<(Seq<char>, Seq<char>)>::empty());
        r
    }

    /// Appends a message.
    pub fn add_message(&mut self, m: Message)
        ensures
            final(self).messages_view() == old(self).messages_view().push(m@),
            final(self).attributes_view() == old(self).attributes_view(),
    {
        let ghost before = self.messages_view();
        self.messages.push(m);
        assert(self.messages_view() =~= before.push(m@));
    }

    /// Appends an attribute.
    pub fn add_attribute(&mut self, key: &str, value: String)
        ensures
            final(self).attributes_view() == old(self).attributes_view().push((key@, value@)),
            final(self).messages_view() == old(self).messages_view(),
    {
        let ghost before = self.attributes_view();
        let a = Attribute { key: String::from_str(key), value };
        self.attributes.push(a);
        assert(self.attributes_view() =~= before.push((key@, a.value@)));
    }
}


/// Number of nanoseconds in one second.
pub const NANOS_PER_SECOND: u64 = 1_000_000_000;

/// The block a message is executed in.
#[derive(Debug, Clone, Copy)]
pub struct BlockInfo {
    pub height: u64,
    /// Block time, in nanoseconds since the Unix epoch.
    pub time_nanos: u64,
}

impl BlockInfo {
    /// Block time in whole seconds.
    pub open spec fn spec_seconds(&self) -> u64 {
        (self.time_nanos / NANOS_PER_SECOND) as u64
    }

    /// Block time in whole seconds, as `Timestamp::seconds` gives it.
    pub fn seconds(&self) -> (s: u64)
        ensures
            s == self.spec_seconds(),
    {
        self.time_nanos / NANOS_PER_SECOND
    }
}

} // verus!

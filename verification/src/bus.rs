//! The bus protocol. Every register access is one transaction: assert the
//! select line, exchange two bytes, release the select line. A
//! [`BusOperation`] sequences the transactions of one operation without
//! touching the bus itself: it names the command that is due, and is
//! advanced with the outcome of that command.

use vstd::prelude::*;
use crate::device::Tdc1000;
use crate::fields::ErrorFlagsWrite;
use crate::registers::{ConfigAddresses, ErrorFlagsRead};

verus! {

/// Set in the address byte of a write; clear in that of a read.
pub const SPI_WRITE_BIT: u8 = 0x40;

/// Sent in place of a value while a register is read.
pub const READ_FILLER: u8 = 0xff;

/// Why a bus operation failed.
#[derive(Debug)]
pub enum Error<CsE, SpiE> {
    /// The select line could not be driven.
    ChipSelectError(CsE),
    /// The byte exchange failed.
    SpiError(SpiE),
}

/// One register access.
#[derive(Clone, Copy, Debug, PartialEq, Eq, Structural)]
pub enum Access {
    Write { register: ConfigAddresses, value: u8 },
    Read { register: ConfigAddresses },
}

/// What the owner of the bus is asked to do next.
#[derive(Clone, Copy, Debug, PartialEq, Eq, Structural)]
pub enum BusCommand {
    /// Drive the select line active.
    AssertSelect,
    /// Send the two bytes; nothing that comes back is looked at.
    Write { first: u8, second: u8 },
    /// Send the two bytes and take two bytes back, in one full-duplex
    /// exchange.
    Transfer { first: u8, second: u8 },
    /// Drive the select line inactive.
    DeassertSelect,
}

/// How a command went.
pub enum BusReply<CsE, SpiE> {
    /// Outcome of `AssertSelect` or `DeassertSelect`.
    SelectLine(Result<(), CsE>),
    /// Outcome of `Write`.
    Written(Result<(), SpiE>),
    /// Outcome of `Transfer`, with the two bytes received.
    Transferred(Result<(u8, u8), SpiE>),
}

/// Where a transaction stands.
pub enum Stage<SpiE> {
    /// The select line is being asserted.
    Selecting,
    /// The bytes are being exchanged.
    Exchanging,
    /// The exchange went well; the select line is being released. `value`
    /// is the register value that a read brought.
    Releasing { value: Option<u8> },
    /// The exchange failed with `cause`; the select line is being released
    /// before the failure is reported.
    Aborting { cause: SpiE },
}

impl Access {
    /// The exchange that performs this access: a write sends the address
    /// with the write bit set and then the value; a read sends the bare
    /// address and then a filler byte.
    pub open spec fn spec_command(self) -> BusCommand {
        match self {
            Access::Write { register, value } => BusCommand::Write {
                first: register.address() | SPI_WRITE_BIT,
                second: value,
            },
            Access::Read { register } => BusCommand::Transfer {
                first: register.address(),
                second: READ_FILLER,
            },
        }
    }

    #[verifier::when_used_as_spec(spec_command)]
    pub fn command(self) -> (c: BusCommand)
        ensures
            c == self.spec_command(),
    {
        match self {
            Access::Write { register, value } => BusCommand::Write {
                first: register.address() | SPI_WRITE_BIT,
                second: value,
            },
            Access::Read { register } => BusCommand::Transfer {
                first: register.address(),
                second: READ_FILLER,
            },
        }
    }
}

/// The write bit tells a write from a read: it is set in the first byte of
/// every write and clear in the first byte of every read, and the bits below
/// it give the register's address either way.
pub proof fn lemma_write_bit_marks_writes(register: ConfigAddresses, value: u8)
    ensures
        (Access::Write { register, value }).command() matches BusCommand::Write { first, second }
            && first & SPI_WRITE_BIT == SPI_WRITE_BIT && first & !SPI_WRITE_BIT
            == register.address() && first == register.address() + 64 && second == value,
        (Access::Read { register }).command() matches BusCommand::Transfer { first, second }
            && first & SPI_WRITE_BIT == 0 && first == register.address() && second == READ_FILLER,
{
    let address: u8 = register.address();
    assert((address | 0x40u8) & 0x40u8 == 0x40u8 && (address | 0x40u8) & !0x40u8 == address
        && (address | 0x40u8) == address + 64 && address & 0x40u8 == 0) by (bit_vector)
        requires
            address < 10,
    ;
}

/// The state of a bus operation, as contracts see it.
pub struct OperationView<SpiE> {
    /// The accesses to perform, in order.
    pub script: Seq<Access>,
    /// Index of the access whose transaction is under way.
    pub position: int,
    /// Where that transaction stands.
    pub stage: Stage<SpiE>,
    /// The register values that the completed reads brought, oldest first.
    pub received: Seq<u8>,
}

/// What a reply leads to, as contracts see it.
pub enum Step<CsE, SpiE> {
    /// The operation goes on from this state.
    Pending(OperationView<SpiE>),
    /// The operation is over.
    Finished { received: Seq<u8>, result: Result<(), Error<CsE, SpiE>> },
}

impl<SpiE> OperationView<SpiE> {
    /// An operation that has issued nothing yet.
    pub open spec fn start(script: Seq<Access>) -> Self {
        OperationView { script, position: 0, stage: Stage::Selecting, received: Seq::empty() }
    }

    /// Whether the access under way is one of the script.
    pub open spec fn wf(self) -> bool {
        0 <= self.position < self.script.len()
    }

    /// The command that is due in this state.
    pub open spec fn command(self) -> BusCommand {
        match self.stage {
            Stage::Selecting => BusCommand::AssertSelect,
            Stage::Exchanging => self.script[self.position].command(),
            Stage::Releasing { .. } => BusCommand::DeassertSelect,
            Stage::Aborting { .. } => BusCommand::DeassertSelect,
        }
    }

    /// The state after a released transaction that went well: its value, if
    /// it read one, is kept, and the next access is due, if there is one.
    pub open spec fn completed<CsE>(self, value: Option<u8>) -> Step<CsE, SpiE> {
        let received = match value {
            Some(v) => self.received.push(v),
            None => self.received,
        };
        if self.position + 1 < self.script.len() {
            Step::Pending(
                OperationView {
                    script: self.script,
                    position: self.position + 1,
                    stage: Stage::Selecting,
                    received,
                },
            )
        } else {
            Step::Finished { received, result: Ok(()) }
        }
    }

    /// The protocol. A failure to assert the select line ends the operation
    /// at once. A failed exchange still has the select line released, and
    /// then ends the operation with the exchange's error. A failure to
    /// release the select line ends the operation even though the exchange
    /// went well, and the value read is dropped. A reply that does not
    /// answer the command that is due changes nothing.
    pub open spec fn step<CsE>(self, reply: BusReply<CsE, SpiE>) -> Step<CsE, SpiE> {
        match (self.stage, reply) {
            (Stage::Selecting, BusReply::SelectLine(Ok(_))) => Step::Pending(
                OperationView { stage: Stage::Exchanging, ..self },
            ),
            (Stage::Selecting, BusReply::SelectLine(Err(e))) => Step::Finished {
                received: self.received,
                result: Err(Error::ChipSelectError(e)),
            },
            (Stage::Exchanging, BusReply::Written(outcome)) => match self.script[self.position] {
                Access::Write { .. } => match outcome {
                    Ok(_) => Step::Pending(
                        OperationView { stage: Stage::Releasing { value: None }, ..self },
                    ),
                    Err(e) => Step::Pending(
                        OperationView { stage: Stage::Aborting { cause: e }, ..self },
                    ),
                },
                Access::Read { .. } => Step::Pending(self),
            },
            (Stage::Exchanging, BusReply::Transferred(outcome)) => match self.script[self.position] {
                Access::Read { .. } => match outcome {
                    Ok(bytes) => Step::Pending(
                        OperationView { stage: Stage::Releasing { value: Some(bytes.1) }, ..self },
                    ),
                    Err(e) => Step::Pending(
                        OperationView { stage: Stage::Aborting { cause: e }, ..self },
                    ),
                },
                Access::Write { .. } => Step::Pending(self),
            },
            (Stage::Releasing { value }, BusReply::SelectLine(Ok(_))) => self.completed(value),
            (Stage::Releasing { value }, BusReply::SelectLine(Err(e))) => Step::Finished {
                received: self.received,
                result: Err(Error::ChipSelectError(e)),
            },
            (Stage::Aborting { cause }, BusReply::SelectLine(_)) => Step::Finished {
                received: self.received,
                result: Err(Error::SpiError(cause)),
            },
            _ => Step::Pending(self),
        }
    }
}

impl<SpiE> OperationView<SpiE> {
    /// Where a run stands once the owner of the bus has given `replies`, one
    /// after the other, each to the command that was due. A run that is
    /// over takes no further reply.
    pub open spec fn after<CsE>(self, replies: Seq<BusReply<CsE, SpiE>>) -> Step<CsE, SpiE>
        decreases replies.len(),
    {
        if replies.len() == 0 {
            Step::Pending(self)
        } else {
            match self.after(replies.drop_last()) {
                Step::Pending(state) => state.step(replies.last()),
                finished => finished,
            }
        }
    }
}

/// Whether `reply` reports success of the command that is due at tick
/// `tick` of a run of `script`. Ticks count the commands of a run, three to
/// a transaction: assert, exchange, release.
pub open spec fn succeeds<CsE, SpiE>(
    script: Seq<Access>,
    tick: int,
    reply: BusReply<CsE, SpiE>,
) -> bool {
    if tick % 3 == 1 {
        match script[tick / 3] {
            Access::Write { .. } => reply == BusReply::<CsE, SpiE>::Written(Ok(())),
            Access::Read { .. } => reply matches BusReply::Transferred(Ok(_)),
        }
    } else {
        reply == BusReply::<CsE, SpiE>::SelectLine(Ok(()))
    }
}

/// Whether every one of `replies` reports success.
pub open spec fn all_succeed<CsE, SpiE>(
    script: Seq<Access>,
    replies: Seq<BusReply<CsE, SpiE>>,
) -> bool {
    forall|k: int| 0 <= k < replies.len() ==> succeeds(script, k, #[trigger] replies[k])
}

/// The register value that transaction `index` brought: for a read, the
/// second of the two bytes received; for a write, none.
pub open spec fn value_brought<CsE, SpiE>(
    script: Seq<Access>,
    replies: Seq<BusReply<CsE, SpiE>>,
    index: int,
) -> Option<u8> {
    match (script[index], replies[3 * index + 1]) {
        (Access::Read { .. }, BusReply::Transferred(Ok(bytes))) => Some(bytes.1),
        _ => None,
    }
}

/// The values that the first `count` transactions brought, oldest first.
pub open spec fn values_brought<CsE, SpiE>(
    script: Seq<Access>,
    replies: Seq<BusReply<CsE, SpiE>>,
    count: int,
) -> Seq<u8>
    decreases count,
{
    if count <= 0 {
        Seq::empty()
    } else {
        let earlier = values_brought(script, replies, count - 1);
        match value_brought(script, replies, count - 1) {
            Some(v) => earlier.push(v),
            None => earlier,
        }
    }
}

/// Where a run stands after `tick` commands that all went well: in
/// transaction `tick / 3`, asserting the select line, exchanging, or
/// releasing the select line, with the values of the transactions before it
/// received; or at its end, once every access has had its three commands.
pub open spec fn run_state<CsE, SpiE>(
    script: Seq<Access>,
    replies: Seq<BusReply<CsE, SpiE>>,
    tick: int,
) -> Step<CsE, SpiE> {
    if tick >= 3 * script.len() {
        Step::Finished {
            received: values_brought(script, replies, script.len() as int),
            result: Ok(()),
        }
    } else {
        Step::Pending(
            OperationView {
                script,
                position: tick / 3,
                stage: if tick % 3 == 0 {
                    Stage::Selecting
                } else if tick % 3 == 1 {
                    Stage::Exchanging
                } else {
                    Stage::Releasing { value: value_brought(script, replies, tick / 3) }
                },
                received: values_brought(script, replies, tick / 3),
            },
        )
    }
}

/// The command that is due at tick `tick` of a run in which every command
/// before went well.
pub open spec fn command_due(script: Seq<Access>, tick: int) -> BusCommand {
    if tick % 3 == 0 {
        BusCommand::AssertSelect
    } else if tick % 3 == 1 {
        script[tick / 3].command()
    } else {
        BusCommand::DeassertSelect
    }
}

/// While its commands go well, an operation runs transaction by
/// transaction, in the script's order, three commands to each access:
/// assert, the exchange of that access, release. It ends with success after
/// the last release, and has then received the values of its reads in order.
pub proof fn lemma_run_in_order<CsE, SpiE>(
    script: Seq<Access>,
    replies: Seq<BusReply<CsE, SpiE>>,
    tick: int,
)
    requires
        script.len() > 0,
        0 <= tick <= replies.len() <= 3 * script.len(),
        all_succeed(script, replies),
    ensures
        OperationView::<SpiE>::start(script).after(replies.take(tick)) == run_state(
            script,
            replies,
            tick,
        ),
        tick == replies.len() ==> OperationView::<SpiE>::start(script).after(replies) == run_state(
            script,
            replies,
            tick,
        ),
        tick < 3 * script.len() ==> {
            &&& OperationView::<SpiE>::start(script).after(replies.take(tick)) matches Step::Pending(
                state,
            )
            &&& state.wf()
            &&& state.command() == command_due(script, tick)
        },
    decreases tick,
{
    let begun = OperationView::<SpiE>::start(script);
    if tick > 0 {
        let now = replies.take(tick);
        let earlier = replies.take(tick - 1);
        lemma_run_in_order(script, replies, tick - 1);
        assert(now.drop_last() =~= earlier);
        assert(now.last() == replies[tick - 1]);
        assert(succeeds(script, tick - 1, replies[tick - 1]));
        let state = begun.after(earlier)->Pending_0;
        assert(begun.after(now) == state.step(now.last()));
    } else {
        assert(replies.take(0) =~= Seq::<BusReply<CsE, SpiE>>::empty());
    }
    if tick == replies.len() {
        assert(replies.take(tick) =~= replies);
    }
}

/// The first command that fails ends the run. Where the select line cannot
/// be driven, the run is over at once. Where the exchange fails, the one
/// command still due is the release of the select line, and whatever comes
/// of it the run is over with the exchange's error. No access after the
/// failing one gets a command, and the failing one brings no value.
pub proof fn lemma_first_failure_ends_run<CsE, SpiE>(
    script: Seq<Access>,
    replies: Seq<BusReply<CsE, SpiE>>,
    select_failure: CsE,
    exchange_failure: SpiE,
    release: Result<(), CsE>,
)
    requires
        script.len() > 0,
        replies.len() < 3 * script.len(),
        all_succeed(script, replies),
    ensures
        replies.len() % 3 != 1 ==> OperationView::<SpiE>::start(script).after(
            replies.push(BusReply::SelectLine(Err(select_failure))),
        ) == (Step::<CsE, SpiE>::Finished {
            received: values_brought(script, replies, replies.len() as int / 3),
            result: Err(Error::ChipSelectError(select_failure)),
        }),
        replies.len() % 3 == 1 ==> {
            let failure = match script[replies.len() as int / 3] {
                Access::Write { .. } => BusReply::<CsE, SpiE>::Written(Err(exchange_failure)),
                Access::Read { .. } => BusReply::<CsE, SpiE>::Transferred(Err(exchange_failure)),
            };
            let failed = replies.push(failure);
            &&& OperationView::<SpiE>::start(script).after(failed) matches Step::Pending(state)
            &&& state.command() == BusCommand::DeassertSelect
            &&& OperationView::<SpiE>::start(script).after(
                failed.push(BusReply::SelectLine(release)),
            ) == (Step::<CsE, SpiE>::Finished {
                received: values_brought(script, replies, replies.len() as int / 3),
                result: Err(Error::SpiError(exchange_failure)),
            })
        },
{
    let tick = replies.len() as int;
    lemma_run_in_order(script, replies, tick);
    if tick % 3 != 1 {
        let failed = replies.push(BusReply::<CsE, SpiE>::SelectLine(Err(select_failure)));
        assert(failed.drop_last() =~= replies);
    } else {
        let failure = match script[tick / 3] {
            Access::Write { .. } => BusReply::<CsE, SpiE>::Written(Err(exchange_failure)),
            Access::Read { .. } => BusReply::<CsE, SpiE>::Transferred(Err(exchange_failure)),
        };
        let failed = replies.push(failure);
        assert(failed.drop_last() =~= replies);
        let released = failed.push(BusReply::<CsE, SpiE>::SelectLine(release));
        assert(released.drop_last() =~= failed);
    }
}

/// A run that is over stays as it ended, whatever is said to it.
pub proof fn lemma_finished_run_stays<CsE, SpiE>(
    state: OperationView<SpiE>,
    replies: Seq<BusReply<CsE, SpiE>>,
    reply: BusReply<CsE, SpiE>,
)
    requires
        state.after(replies) is Finished,
    ensures
        state.after(replies.push(reply)) == state.after(replies),
{
    assert(replies.push(reply).drop_last() =~= replies);
}

/// Whether every access of the script is a write.
pub open spec fn writes_only(script: Seq<Access>) -> bool {
    forall|i: int| 0 <= i < script.len() ==> #[trigger] script[i] is Write
}

/// Whether every access of the script is a read.
pub open spec fn reads_only(script: Seq<Access>) -> bool {
    forall|i: int| 0 <= i < script.len() ==> #[trigger] script[i] is Read
}

/// The second of the two bytes that the transfer of transaction `index`
/// received.
pub open spec fn byte_read<CsE, SpiE>(replies: Seq<BusReply<CsE, SpiE>>, index: int) -> u8 {
    match replies[3 * index + 1] {
        BusReply::Transferred(Ok(bytes)) => bytes.1,
        _ => 0,
    }
}

/// Writes bring no value.
pub proof fn lemma_writes_bring_nothing<CsE, SpiE>(
    script: Seq<Access>,
    replies: Seq<BusReply<CsE, SpiE>>,
    count: int,
)
    requires
        writes_only(script),
        count <= script.len(),
    ensures
        values_brought(script, replies, count) == Seq::<u8>::empty(),
    decreases count,
{
    if count > 0 {
        lemma_writes_bring_nothing(script, replies, count - 1);
        assert(script[count - 1] is Write);
    }
}

/// Reads that go well bring one value each, in the order of the script.
pub proof fn lemma_reads_bring_their_bytes<CsE, SpiE>(
    script: Seq<Access>,
    replies: Seq<BusReply<CsE, SpiE>>,
    count: int,
)
    requires
        reads_only(script),
        0 <= count <= script.len(),
        3 * count <= replies.len(),
        all_succeed(script, replies),
    ensures
        values_brought(script, replies, count) == Seq::new(
            count as nat,
            |i: int| byte_read(replies, i),
        ),
    decreases count,
{
    if count > 0 {
        lemma_reads_bring_their_bytes(script, replies, count - 1);
        assert(script[count - 1] is Read);
        assert(succeeds(script, 3 * (count - 1) + 1, replies[3 * (count - 1) + 1]));
        assert(values_brought(script, replies, count) =~= Seq::new(
            count as nat,
            |i: int| byte_read(replies, i),
        ));
    } else {
        assert(values_brought(script, replies, count) =~= Seq::new(
            count as nat,
            |i: int| byte_read(replies, i),
        ));
    }
}

/// A bus operation under way: a script of register accesses, the place
/// reached in it, and the values read so far.
pub struct BusOperation<SpiE> {
    script: Vec<Access>,
    position: usize,
    stage: Stage<SpiE>,
    received: Vec<u8>,
}

/// What advancing an operation gives: the operation to go on with, or the
/// end of it.
pub enum Progress<CsE, SpiE> {
    /// The operation goes on; ask it for its next command.
    Pending(BusOperation<SpiE>),
    /// The operation is over. `received` holds the values of the reads that
    /// were completed, also where `result` is an error.
    Finished { received: Vec<u8>, result: Result<(), Error<CsE, SpiE>> },
}

impl<SpiE> View for BusOperation<SpiE> {
    type V = OperationView<SpiE>;

    closed spec fn view(&self) -> OperationView<SpiE> {
        OperationView {
            script: self.script@,
            position: self.position as int,
            stage: self.stage,
            received: self.received@,
        }
    }
}

impl<CsE, SpiE> View for Progress<CsE, SpiE> {
    type V = Step<CsE, SpiE>;

    open spec fn view(&self) -> Step<CsE, SpiE> {
        match *self {
            Progress::Pending(operation) => Step::Pending(operation@),
            Progress::Finished { received, result } => Step::Finished {
                received: received@,
                result,
            },
        }
    }
}

impl<SpiE> BusOperation<SpiE> {
    #[verifier::type_invariant]
    closed spec fn in_script(self) -> bool {
        self.position < self.script@.len()
    }

    /// An operation that performs the accesses of `script` in order. Without
    /// an access there is no operation.
    pub fn begin(script: Vec<Access>) -> (operation: Option<Self>)
        ensures
            script@.len() == 0 <==> operation is None,
            operation matches Some(op) ==> op@ == OperationView::<SpiE>::start(script@),
    {
        if script.len() == 0 {
            None
        } else {
            Some(BusOperation { script, position: 0, stage: Stage::Selecting, received: Vec::new() })
        }
    }

    /// The operation that reads one register.
    pub fn read_register(register: ConfigAddresses) -> (operation: Self)
        ensures
            operation@ == OperationView::<SpiE>::start(seq![Access::Read { register }]),
    {
        let mut script: Vec<Access> = Vec::new();
        script.push(Access::Read { register });
        let operation = BusOperation {
            script,
            position: 0,
            stage: Stage::Selecting,
            received: Vec::new(),
        };
        assert(operation@.script =~= seq![Access::Read { register }]);
        operation
    }

    /// The operation that writes `value` to one register.
    pub fn write_register(register: ConfigAddresses, value: u8) -> (operation: Self)
        ensures
            operation@ == OperationView::<SpiE>::start(seq![Access::Write { register, value }]),
    {
        let mut script: Vec<Access> = Vec::new();
        script.push(Access::Write { register, value });
        let operation = BusOperation {
            script,
            position: 0,
            stage: Stage::Selecting,
            received: Vec::new(),
        };
        assert(operation@.script =~= seq![Access::Write { register, value }]);
        operation
    }

    /// The command that is due.
    pub fn command(&self) -> (c: BusCommand)
        ensures
            self@.wf(),
            c == self@.command(),
    {
        proof {
            use_type_invariant(self);
        }
        match self.stage {
            Stage::Selecting => BusCommand::AssertSelect,
            Stage::Exchanging => self.script[self.position].command(),
            Stage::Releasing { .. } => BusCommand::DeassertSelect,
            Stage::Aborting { .. } => BusCommand::DeassertSelect,
        }
    }

    /// Takes the outcome of the command that was due and moves on.
    pub fn advance<CsE>(self, reply: BusReply<CsE, SpiE>) -> (progress: Progress<CsE, SpiE>)
        ensures
            self@.wf(),
            progress@ == self@.step(reply),
    {
        proof {
            use_type_invariant(&self);
        }
        let ghost before = self@;
        let BusOperation { script, position, stage, received } = self;
        let count: usize = script.len();
        let access = script[position];
        match (stage, reply) {
            (Stage::Selecting, BusReply::SelectLine(Ok(_))) => Progress::Pending(
                BusOperation { script, position, stage: Stage::Exchanging, received },
            ),
            (Stage::Selecting, BusReply::SelectLine(Err(e))) => Progress::Finished {
                received,
                result: Err(Error::ChipSelectError(e)),
            },
            (Stage::Exchanging, BusReply::Written(outcome)) => match access {
                Access::Write { .. } => match outcome {
                    Ok(_) => Progress::Pending(
                        BusOperation {
                            script,
                            position,
                            stage: Stage::Releasing { value: None },
                            received,
                        },
                    ),
                    Err(e) => Progress::Pending(
                        BusOperation { script, position, stage: Stage::Aborting { cause: e }, received },
                    ),
                },
                Access::Read { .. } => Progress::Pending(
                    BusOperation { script, position, stage: Stage::Exchanging, received },
                ),
            },
            (Stage::Exchanging, BusReply::Transferred(outcome)) => match access {
                Access::Read { .. } => match outcome {
                    Ok(bytes) => Progress::Pending(
                        BusOperation {
                            script,
                            position,
                            stage: Stage::Releasing { value: Some(bytes.1) },
                            received,
                        },
                    ),
                    Err(e) => Progress::Pending(
                        BusOperation { script, position, stage: Stage::Aborting { cause: e }, received },
                    ),
                },
                Access::Write { .. } => Progress::Pending(
                    BusOperation { script, position, stage: Stage::Exchanging, received },
                ),
            },
            (Stage::Releasing { value }, BusReply::SelectLine(Ok(_))) => {
                let mut received = received;
                match value {
                    Some(v) => {
                        received.push(v);
                    },
                    None => {},
                }
                if position + 1 < count {
                    Progress::Pending(
                        BusOperation {
                            script,
                            position: position + 1,
                            stage: Stage::Selecting,
                            received,
                        },
                    )
                } else {
                    Progress::Finished { received, result: Ok(()) }
                }
            },
            (Stage::Releasing { .. }, BusReply::SelectLine(Err(e))) => Progress::Finished {
                received,
                result: Err(Error::ChipSelectError(e)),
            },
            (Stage::Aborting { cause }, BusReply::SelectLine(_)) => Progress::Finished {
                received,
                result: Err(Error::SpiError(cause)),
            },
            (stage, _) => Progress::Pending(BusOperation { script, position, stage, received }),
        }
    }
}

/// The registers that hold the configuration, in the order in which they
/// are written.
pub open spec fn settings_order() -> Seq<ConfigAddresses> {
    seq![
        ConfigAddresses::Config0,
        ConfigAddresses::Config1,
        ConfigAddresses::Config2,
        ConfigAddresses::Config3,
        ConfigAddresses::Config4,
        ConfigAddresses::Tof1,
        ConfigAddresses::Tof0,
        ConfigAddresses::TimeOut,
        ConfigAddresses::ClockRate,
    ]
}

/// All registers of the chip, in the order in which they are read.
pub open spec fn readout_order() -> Seq<ConfigAddresses> {
    seq![
        ConfigAddresses::Config0,
        ConfigAddresses::Config1,
        ConfigAddresses::Config2,
        ConfigAddresses::Config3,
        ConfigAddresses::Config4,
        ConfigAddresses::Tof1,
        ConfigAddresses::Tof0,
        ConfigAddresses::ErrFlag,
        ConfigAddresses::TimeOut,
        ConfigAddresses::ClockRate,
    ]
}

/// The reads that bring every register of the chip, in the order of the
/// addresses.
pub open spec fn readout() -> Seq<Access> {
    Seq::new(10, |i: int| Access::Read { register: readout_order()[i] })
}

impl Tdc1000 {
    /// The writes that bring the chip to this configuration: one per
    /// configuration register, each with the register's byte as the fields
    /// give it now.
    pub open spec fn settings(self) -> Seq<Access> {
        Seq::new(
            9,
            |i: int| Access::Write { register: settings_order()[i], value: self.image()[i] as u8 },
        )
    }

    /// The operation that writes the whole configuration to the chip.
    pub fn write_settings<SpiE>(&self) -> (operation: BusOperation<SpiE>)
        ensures
            operation@ == OperationView::<SpiE>::start(self.settings()),
    {
        let mut script: Vec<Access> = Vec::new();
        script.push(
            Access::Write { register: ConfigAddresses::Config0, value: self.get_config_0_value() },
        );
        script.push(
            Access::Write { register: ConfigAddresses::Config1, value: self.get_config_1_value() },
        );
        script.push(
            Access::Write { register: ConfigAddresses::Config2, value: self.get_config_2_value() },
        );
        script.push(
            Access::Write { register: ConfigAddresses::Config3, value: self.get_config_3_value() },
        );
        script.push(
            Access::Write { register: ConfigAddresses::Config4, value: self.get_config_4_value() },
        );
        script.push(
            Access::Write { register: ConfigAddresses::Tof1, value: self.get_tof_1_value() },
        );
        script.push(
            Access::Write { register: ConfigAddresses::Tof0, value: self.get_tof_0_value() },
        );
        script.push(
            Access::Write { register: ConfigAddresses::TimeOut, value: self.get_timeout_value() },
        );
        script.push(
            Access::Write {
                register: ConfigAddresses::ClockRate,
                value: self.get_clock_rate_value(),
            },
        );
        assert(script@ =~= self.settings());
        BusOperation { script, position: 0, stage: Stage::Selecting, received: Vec::new() }
    }

    /// The operation that reads the error register. Its received values are
    /// what [`error_flags_received`] takes.
    pub fn read_error<SpiE>(&self) -> (operation: BusOperation<SpiE>)
        ensures
            operation@ == OperationView::<SpiE>::start(
                seq![Access::Read { register: ConfigAddresses::ErrFlag }],
            ),
    {
        BusOperation::read_register(ConfigAddresses::ErrFlag)
    }

    /// The operation that writes a control code to the error register.
    pub fn reset_error<SpiE>(&self, reset_type: ErrorFlagsWrite) -> (operation: BusOperation<SpiE>)
        ensures
            operation@ == OperationView::<SpiE>::start(
                seq![Access::Write { register: ConfigAddresses::ErrFlag, value: reset_type.code() }],
            ),
    {
        BusOperation::write_register(ConfigAddresses::ErrFlag, reset_type.code())
    }

    /// The operation that reads every register of the chip. Its received
    /// values are what [`store_raw_values`] takes.
    pub fn read_raw_config_values<SpiE>(&self) -> (operation: BusOperation<SpiE>)
        ensures
            operation@ == OperationView::<SpiE>::start(readout()),
    {
        let mut script: Vec<Access> = Vec::new();
        script.push(Access::Read { register: ConfigAddresses::Config0 });
        script.push(Access::Read { register: ConfigAddresses::Config1 });
        script.push(Access::Read { register: ConfigAddresses::Config2 });
        script.push(Access::Read { register: ConfigAddresses::Config3 });
        script.push(Access::Read { register: ConfigAddresses::Config4 });
        script.push(Access::Read { register: ConfigAddresses::Tof1 });
        script.push(Access::Read { register: ConfigAddresses::Tof0 });
        script.push(Access::Read { register: ConfigAddresses::ErrFlag });
        script.push(Access::Read { register: ConfigAddresses::TimeOut });
        script.push(Access::Read { register: ConfigAddresses::ClockRate });
        assert(script@ =~= readout());
        BusOperation { script, position: 0, stage: Stage::Selecting, received: Vec::new() }
    }
}

impl Tdc1000 {
    /// Writing the configuration takes nine write transactions, one per
    /// configuration register in the fixed order, each made of three
    /// commands: assert the select line, write the register's address with
    /// the write bit set and then its byte, release the select line. After
    /// the twenty-seventh command that went well the operation is over.
    pub proof fn lemma_write_settings_run<CsE, SpiE>(self, replies: Seq<BusReply<CsE, SpiE>>)
        requires
            replies.len() <= 27,
            all_succeed(self.settings(), replies),
        ensures
            self.settings().len() == 9,
            replies.len() == 27 ==> OperationView::<SpiE>::start(self.settings()).after(replies)
                == (Step::<CsE, SpiE>::Finished { received: Seq::empty(), result: Ok(()) }),
            replies.len() < 27 ==> {
                let tick = replies.len() as int;
                &&& OperationView::<SpiE>::start(self.settings()).after(replies) matches Step::Pending(
                    state,
                )
                &&& state.position == tick / 3
                &&& tick % 3 == 0 ==> state.command() == BusCommand::AssertSelect
                &&& tick % 3 == 1 ==> state.command() == (BusCommand::Write {
                    first: settings_order()[tick / 3].address() | SPI_WRITE_BIT,
                    second: self.image()[tick / 3] as u8,
                })
                &&& tick % 3 == 2 ==> state.command() == BusCommand::DeassertSelect
            },
    {
        lemma_run_in_order(self.settings(), replies, replies.len() as int);
        lemma_writes_bring_nothing(self.settings(), replies, 9);
    }

    /// Reading all registers takes ten read transactions, one per register
    /// in the order of the addresses, each made of three commands: assert
    /// the select line, exchange the register's address and a filler byte
    /// for two bytes, release the select line. After the thirtieth command
    /// that went well the operation is over and has received, in that
    /// order, the second byte of every exchange.
    pub proof fn lemma_read_raw_config_values_run<CsE, SpiE>(
        replies: Seq<BusReply<CsE, SpiE>>,
    )
        requires
            replies.len() <= 30,
            all_succeed(readout(), replies),
        ensures
            readout().len() == 10,
            replies.len() == 30 ==> OperationView::<SpiE>::start(readout()).after(replies) == (
            Step::<CsE, SpiE>::Finished {
                received: Seq::new(10, |i: int| byte_read(replies, i)),
                result: Ok(()),
            }),
            replies.len() < 30 ==> {
                let tick = replies.len() as int;
                &&& OperationView::<SpiE>::start(readout()).after(replies) matches Step::Pending(
                    state,
                )
                &&& state.position == tick / 3
                &&& tick % 3 == 0 ==> state.command() == BusCommand::AssertSelect
                &&& tick % 3 == 1 ==> state.command() == (BusCommand::Transfer {
                    first: (tick / 3) as u8,
                    second: READ_FILLER,
                })
                &&& tick % 3 == 2 ==> state.command() == BusCommand::DeassertSelect
            },
    {
        lemma_run_in_order(readout(), replies, replies.len() as int);
        if replies.len() == 30 {
            lemma_reads_bring_their_bytes(readout(), replies, 10);
        }
    }
}

/// A single read that goes well takes three commands and has then received
/// one value: the second byte of its exchange.
pub proof fn lemma_read_register_run<CsE, SpiE>(
    register: ConfigAddresses,
    replies: Seq<BusReply<CsE, SpiE>>,
)
    requires
        replies.len() == 3,
        all_succeed(seq![Access::Read { register }], replies),
    ensures
        OperationView::<SpiE>::start(seq![Access::Read { register }]).after(replies) == (
        Step::<CsE, SpiE>::Finished { received: seq![byte_read(replies, 0)], result: Ok(()) }),
{
    let script = seq![Access::Read { register }];
    lemma_run_in_order(script, replies, 3);
    lemma_reads_bring_their_bytes(script, replies, 1);
    assert(Seq::new(1, |i: int| byte_read(replies, i)) =~= seq![byte_read(replies, 0)]);
}

/// The error flags that a read of the error register brought: the decoding
/// of the one value received. A read that did not complete brought none.
pub fn error_flags_received(received: &Vec<u8>) -> (flags: Option<ErrorFlagsRead>)
    ensures
        received@.len() == 1 <==> flags is Some,
        flags matches Some(shown) ==> shown.shows(received@[0]),
{
    if received.len() == 1 {
        Some(ErrorFlagsRead::decode(received[0]))
    } else {
        None
    }
}

/// Puts the values that a read of all registers brought into the caller's
/// buffer, the first at index 0. Where the read ended early, the rest of the
/// buffer keeps what it held.
pub fn store_raw_values(received: &Vec<u8>, raw_value_buffer: &mut [u8; 10])
    ensures
        forall|i: int|
            0 <= i < 10 ==> final(raw_value_buffer)@[i] == if i < received@.len() {
                received@[i]
            } else {
                old(raw_value_buffer)@[i]
            },
{
    let count: usize = if received.len() < 10 { received.len() } else { 10 };
    let mut i: usize = 0;
    while i < count
        invariant
            i <= count <= 10,
            count <= received@.len(),
            forall|k: int|
                0 <= k < 10 ==> raw_value_buffer@[k] == if k < i {
                    received@[k]
                } else {
                    old(raw_value_buffer)@[k]
                },
        decreases count - i,
    {
        raw_value_buffer[i] = received[i];
        i += 1;
    }
}

} // verus!

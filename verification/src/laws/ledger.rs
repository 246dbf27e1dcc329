//! What holds of the contract together with the tokens that move for it.
use vstd::prelude::*;

use crate::contract::ContractState;
use crate::events::Transfer;
use crate::laws::answers::{
    law_a_running_stream_can_be_cancelled, law_a_withdrawal_pays_and_books_the_same,
    law_an_opening_keeps_the_terms, law_any_part_of_what_has_vested_can_be_withdrawn,
    law_cancelling_pays_back_what_has_not_vested, law_sound_terms_are_accepted,
    law_whatever_has_vested_can_be_withdrawn,
};
use crate::laws::calls::{
    law_a_call_touches_only_the_stream_it_names, law_calls_keep_the_contract_in_order, Call,
};
use crate::laws::schedule::law_vesting_never_runs_backwards;
use crate::terms::Terms;
use crate::types::{Address, Stream};
use crate::vesting::{lemma_vested_bounds, MAX_AMOUNT};

verus! {

/// A contract and who holds how much of which token: `holdings(token, holder)`.
#[verifier::ext_equal]
pub struct Ledger {
    pub contract: ContractState,
    pub holdings: spec_fn(Address, Address) -> int,
}

/// A call as it reaches the ledger: when, and authorized by whom.
pub struct Request {
    pub call: Call,
    pub now: u64,
    pub signers: Set<Address>,
}

/// What is yet to be paid out of `stream`, whoever gets it, in `token`.
pub open spec fn outstanding(stream: Stream, token: Address) -> int {
    if stream.token == token {
        stream.total_amount - stream.withdrawn
    } else {
        0
    }
}

/// What is yet to be paid out of the streams with the first `count` ids, in
/// `token`.
pub open spec fn owed(streams: Map<u64, Stream>, count: nat, token: Address) -> int
    decreases count,
{
    if count == 0 {
        0
    } else {
        owed(streams, (count - 1) as nat, token) + owed_under(
            streams,
            (count - 1) as u64,
            token,
        )
    }
}

/// What is yet to be paid out of the stream under `id`, if there is one, in
/// `token`.
pub open spec fn owed_under(streams: Map<u64, Stream>, id: u64, token: Address) -> int {
    if streams.contains_key(id) {
        outstanding(streams[id], token)
    } else {
        0
    }
}

/// How much `transfer` adds to what `holder` holds of `token`.
pub open spec fn gain(transfer: Transfer, token: Address, holder: Address) -> int {
    if token != transfer.token {
        0
    } else {
        (if holder == transfer.to {
            transfer.amount as int
        } else {
            0
        }) - (if holder == transfer.from {
            transfer.amount as int
        } else {
            0
        })
    }
}

impl Ledger {
    /// A contract that was just deployed at `address`, on a network where
    /// tokens are held as `holdings` says.
    pub open spec fn deployed(
        address: Address,
        holdings: spec_fn(Address, Address) -> int,
    ) -> Ledger {
        Ledger { contract: ContractState::fresh(address), holdings }
    }

    /// Whether the payer of `transfer` holds enough for it.
    pub open spec fn covers(self, transfer: Transfer) -> bool {
        transfer.amount <= (self.holdings)(transfer.token, transfer.from)
    }

    /// Whether `request` goes through: whoever has to authorize it did, the
    /// contract accepts it, and the payer holds enough. A request that does not
    /// go through leaves no trace.
    pub open spec fn goes_through(self, request: Request) -> bool {
        let Request { call, now, signers } = request;
        &&& self.contract.refusal(call, now) is None
        &&& signers.contains(self.contract.authorizer(call))
        &&& self.covers(self.contract.transfer(call, now))
    }

    /// The ledger after `request` was made.
    pub open spec fn after(self, request: Request) -> Ledger {
        if self.goes_through(request) {
            let transfer = self.contract.transfer(request.call, request.now);
            Ledger {
                contract: self.contract.after(request.call, request.now),
                holdings: |token: Address, holder: Address|
                    (self.holdings)(token, holder) + gain(transfer, token, holder),
            }
        } else {
            self
        }
    }

    /// The ledger after all of `requests` were made in turn.
    pub open spec fn after_all(self, requests: Seq<Request>) -> Ledger
        decreases requests.len(),
    {
        if requests.len() == 0 {
            self
        } else {
            self.after_all(requests.drop_last()).after(requests.last())
        }
    }

    /// What the contract owes its streams in `token`.
    pub open spec fn owes(self, token: Address) -> int {
        owed(self.contract.streams, self.contract.stream_count as nat, token)
    }

    /// The contract holds at least what it owes, in every token.
    pub open spec fn solvent(self) -> bool {
        forall|token: Address|
            self.owes(token) <= #[trigger] (self.holdings)(token, self.contract.address)
    }

    /// The contract is well formed, its next id is new, and it is solvent.
    pub open spec fn in_order(self) -> bool {
        &&& self.contract.well_formed()
        &&& self.contract.next_id_is_new()
        &&& self.solvent()
    }
}

/// What is owed to the first `count` streams depends on those streams alone.
proof fn lemma_owed_is_local(
    first: Map<u64, Stream>,
    second: Map<u64, Stream>,
    count: nat,
    token: Address,
)
    requires
        count <= u64::MAX,
        forall|id: u64|
            id < count ==> #[trigger] owed_under(first, id, token) == owed_under(
                second,
                id,
                token,
            ),
    ensures
        owed(first, count, token) == owed(second, count, token),
    decreases count,
{
    if count > 0 {
        lemma_owed_is_local(first, second, (count - 1) as nat, token);
        assert(owed_under(first, (count - 1) as u64, token) == owed_under(
            second,
            (count - 1) as u64,
            token,
        ));
    }
}

/// Replacing one stream changes what is owed by what is outstanding on it.
proof fn lemma_owed_after_replacing(
    streams: Map<u64, Stream>,
    count: nat,
    id: u64,
    stream: Stream,
    token: Address,
)
    requires
        id < count <= u64::MAX,
    ensures
        owed(streams.insert(id, stream), count, token) == owed(streams, count, token) - owed_under(
            streams,
            id,
            token,
        ) + outstanding(stream, token),
    decreases count,
{
    let last = (count - 1) as u64;
    if id == last {
        lemma_owed_is_local(streams, streams.insert(id, stream), (count - 1) as nat, token);
    } else {
        lemma_owed_after_replacing(streams, (count - 1) as nat, id, stream, token);
    }
}

/// What is outstanding on one of the streams is part of what is owed.
proof fn lemma_outstanding_is_owed(state: ContractState, count: nat, id: u64, token: Address)
    requires
        state.well_formed(),
        count <= state.stream_count,
    ensures
        0 <= owed(state.streams, count, token),
        id < count ==> owed_under(state.streams, id, token) <= owed(state.streams, count, token),
    decreases count,
{
    if count > 0 {
        lemma_outstanding_is_owed(state, (count - 1) as nat, id, token);
        let last = (count - 1) as u64;
        assert(state.streams.contains_key(last) ==> state.admits(state.streams[last]));
    }
}

/// What the contract owes moves with what it holds: an accepted call changes
/// both by the same amount, in every token.
pub proof fn law_what_is_owed_moves_with_what_is_held(
    contract: ContractState,
    call: Call,
    now: u64,
    token: Address,
)
    requires
        contract.well_formed(),
        contract.next_id_is_new(),
        contract.refusal(call, now) is None,
    ensures
        ({
            let after = contract.after(call, now);
            owed(after.streams, after.stream_count as nat, token) == owed(
                contract.streams,
                contract.stream_count as nat,
                token,
            ) + gain(contract.transfer(call, now), token, contract.address)
        }),
{
    let after = contract.after(call, now);
    let count = contract.stream_count as nat;
    match call {
        Call::Create { terms } => {
            lemma_owed_is_local(contract.streams, after.streams, count, token);
        },
        Call::Withdraw { id } => {
            lemma_kept_stream(contract, id, now);
            lemma_owed_after_replacing(contract.streams, count, id, after.streams[id], token);
        },
        Call::WithdrawAmount { id, amount } => {
            lemma_kept_stream(contract, id, now);
            lemma_owed_after_replacing(contract.streams, count, id, after.streams[id], token);
        },
        Call::Cancel { id } => {
            lemma_kept_stream(contract, id, now);
            lemma_owed_after_replacing(contract.streams, count, id, after.streams[id], token);
        },
    }
}

/// What is known of a stream that is kept.
proof fn lemma_kept_stream(contract: ContractState, id: u64, now: u64)
    requires
        contract.well_formed(),
        contract.next_id_is_new(),
        contract.streams.contains_key(id),
    ensures
        id < contract.stream_count,
        contract.admits(contract.streams[id]),
        0 <= contract.streams[id].vested_at(now) <= contract.streams[id].total_amount,
{
    assert(contract.admits(contract.streams[id]));
    lemma_vested_bounds(contract.streams[id], now);
}

/// A contract that is in order can always pay: no withdrawal and no refund that
/// it accepts from the right party fails for want of tokens.
pub proof fn law_accepted_payments_are_covered(ledger: Ledger, request: Request)
    requires
        ledger.in_order(),
        !(request.call is Create),
        ledger.contract.refusal(request.call, request.now) is None,
        request.signers.contains(ledger.contract.authorizer(request.call)),
    ensures
        ledger.goes_through(request),
{
    let contract = ledger.contract;
    let call = request.call;
    let id = choose|id: u64| call.names(id);
    assert(call.names(id)) by {
        match call {
            Call::Create { terms } => {},
            Call::Withdraw { id: named } => assert(call.names(named)),
            Call::WithdrawAmount { id: named, amount } => assert(call.names(named)),
            Call::Cancel { id: named } => assert(call.names(named)),
        }
    }
    lemma_kept_stream(contract, id, request.now);
    let token = contract.streams[id].token;
    lemma_outstanding_is_owed(contract, contract.stream_count as nat, id, token);
    assert(ledger.owes(token) <= (ledger.holdings)(token, contract.address));
}

/// A sender who signs for sound terms and holds the amount always gets a stream:
/// the amount moves from the sender to the contract, and the terms stand under the
/// next id.
pub proof fn law_sound_terms_open_a_stream(
    ledger: Ledger,
    terms: Terms,
    now: u64,
    signers: Set<Address>,
)
    requires
        ledger.in_order(),
    ensures
        ({
            let request = Request { call: Call::Create { terms }, now, signers };
            let contract = ledger.contract;
            let me = contract.address;
            let after = ledger.after(request);
            let id = contract.stream_count;
            &&& ledger.goes_through(request) <==> {
                &&& seq![me, terms.sender, terms.recipient, terms.token].no_duplicates()
                &&& 0 < terms.total_amount <= MAX_AMOUNT
                &&& terms.start_time < terms.end_time
                &&& terms.start_time <= terms.cliff_time <= terms.end_time
                &&& now < terms.end_time
                &&& id < u64::MAX
                &&& signers.contains(terms.sender)
                &&& terms.total_amount <= (ledger.holdings)(terms.token, terms.sender)
            }
            &&& ledger.goes_through(request) ==> {
                &&& !contract.streams.contains_key(id)
                &&& after.contract.streams.contains_key(id)
                &&& after.contract.streams[id].recipient == terms.recipient
                &&& (after.holdings)(terms.token, terms.sender) == (ledger.holdings)(
                    terms.token,
                    terms.sender,
                ) - terms.total_amount
                &&& (after.holdings)(terms.token, me) == (ledger.holdings)(terms.token, me)
                    + terms.total_amount
                &&& after.owes(terms.token) == ledger.owes(terms.token) + terms.total_amount
            }
        }),
{
    let call = Call::Create { terms };
    law_sound_terms_are_accepted(ledger.contract, terms, now);
    if ledger.contract.create_refusal(terms, now) is None {
        law_an_opening_keeps_the_terms(ledger.contract, terms, now);
        law_what_is_owed_moves_with_what_is_held(ledger.contract, call, now, terms.token);
    }
}

/// A recipient who signs is paid at any moment all that has vested and was not
/// taken, however little it is: the recipient then holds that much more and the
/// contract that much less. Asking for a part of it pays exactly that part.
pub proof fn law_the_recipient_is_paid_whatever_has_vested(
    ledger: Ledger,
    id: u64,
    amount: i128,
    now: u64,
    signers: Set<Address>,
)
    requires
        ledger.in_order(),
        ledger.contract.streams.contains_key(id),
        signers.contains(ledger.contract.streams[id].recipient),
    ensures
        ({
            let whole = Request { call: Call::Withdraw { id }, now, signers };
            let part = Request { call: Call::WithdrawAmount { id, amount }, now, signers };
            let stream = ledger.contract.streams[id];
            let me = ledger.contract.address;
            let due = stream.vested_at(now) - stream.withdrawn;
            let held = (ledger.holdings)(stream.token, stream.recipient);
            let backing = (ledger.holdings)(stream.token, me);
            &&& due > 0 ==> {
                let after = ledger.after(whole);
                &&& ledger.goes_through(whole)
                &&& (after.holdings)(stream.token, stream.recipient) == held + due
                &&& (after.holdings)(stream.token, me) == backing - due
                &&& after.contract.streams[id].withdrawn == stream.vested_at(now)
            }
            &&& 0 < amount <= due ==> {
                let after = ledger.after(part);
                &&& ledger.goes_through(part)
                &&& (after.holdings)(stream.token, stream.recipient) == held + amount
                &&& (after.holdings)(stream.token, me) == backing - amount
                &&& after.contract.streams[id].withdrawn == stream.withdrawn + amount
            }
            &&& due <= 0 ==> ledger.after(whole) == ledger
            &&& !(0 < amount <= due) ==> ledger.after(part) == ledger
        }),
{
    let contract = ledger.contract;
    let whole = Request { call: Call::Withdraw { id }, now, signers };
    let part = Request { call: Call::WithdrawAmount { id, amount }, now, signers };
    lemma_kept_stream(contract, id, now);
    law_whatever_has_vested_can_be_withdrawn(contract, id, now);
    law_any_part_of_what_has_vested_can_be_withdrawn(contract, id, amount, now);
    if contract.refusal(whole.call, now) is None {
        law_accepted_payments_are_covered(ledger, whole);
        law_a_withdrawal_pays_and_books_the_same(contract, whole.call, now);
    }
    if contract.refusal(part.call, now) is None {
        law_accepted_payments_are_covered(ledger, part);
        law_a_withdrawal_pays_and_books_the_same(contract, part.call, now);
    }
}

/// A sender who signs can get out of a stream at any moment before its end: the
/// sender gets back what has not vested and was not taken, and the recipient loses
/// nothing of what has vested.
pub proof fn law_the_sender_can_get_out_before_the_end(
    ledger: Ledger,
    id: u64,
    now: u64,
    signers: Set<Address>,
)
    requires
        ledger.in_order(),
        ledger.contract.streams.contains_key(id),
        !ledger.contract.streams[id].cancelled,
        now < ledger.contract.streams[id].end_time,
        signers.contains(ledger.contract.streams[id].sender),
    ensures
        ({
            let request = Request { call: Call::Cancel { id }, now, signers };
            let stream = ledger.contract.streams[id];
            let after = ledger.after(request);
            let closed = after.contract.streams[id];
            let me = ledger.contract.address;
            let back = (after.holdings)(stream.token, stream.sender) - (ledger.holdings)(
                stream.token,
                stream.sender,
            );
            &&& ledger.goes_through(request)
            &&& closed.cancelled
            &&& stream.withdrawn <= stream.vested_at(now) ==> back == stream.total_amount
                - stream.vested_at(now)
            &&& stream.withdrawn >= stream.vested_at(now) ==> back == stream.total_amount
                - stream.withdrawn
            &&& (after.holdings)(stream.token, me) == (ledger.holdings)(stream.token, me) - back
            &&& closed.total_amount - closed.withdrawn == stream.withdrawable_at(now)
        }),
{
    let contract = ledger.contract;
    let request = Request { call: Call::Cancel { id }, now, signers };
    lemma_kept_stream(contract, id, now);
    law_a_running_stream_can_be_cancelled(contract, id, now);
    law_accepted_payments_are_covered(ledger, request);
    law_cancelling_pays_back_what_has_not_vested(contract, id, now);
}

/// Every request keeps the contract in order, and so solvent, whatever the clock
/// says, whoever makes it and whether it goes through or not.
pub proof fn law_requests_keep_the_contract_solvent(ledger: Ledger, request: Request)
    requires
        ledger.in_order(),
    ensures
        ledger.after(request).in_order(),
{
    if ledger.goes_through(request) {
        let Request { call, now, signers } = request;
        let after = ledger.after(request);
        law_calls_keep_the_contract_in_order(ledger.contract, call, now, now);
        assert forall|token: Address|
            after.owes(token) <= #[trigger] (after.holdings)(token, after.contract.address) by {
            law_what_is_owed_moves_with_what_is_held(ledger.contract, call, now, token);
            assert(ledger.owes(token) <= (ledger.holdings)(token, ledger.contract.address));
        }
    }
}

/// From its deployment on, whatever is asked of it, by whom and when, the
/// contract is in order and holds what it owes: its ids are contiguous from
/// zero, it takes no part in its own streams, nobody was paid more than was
/// deposited, and every token that is yet to be paid out is there.
pub proof fn law_every_history_is_solvent(
    address: Address,
    holdings: spec_fn(Address, Address) -> int,
    requests: Seq<Request>,
)
    requires
        forall|token: Address| #[trigger] holdings(token, address) >= 0,
    ensures
        Ledger::deployed(address, holdings).after_all(requests).in_order(),
        Ledger::deployed(address, holdings).after_all(requests).contract.contiguous(),
        Ledger::deployed(address, holdings).after_all(requests).contract.address == address,
    decreases requests.len(),
{
    let start = Ledger::deployed(address, holdings);
    if requests.len() == 0 {
        assert forall|token: Address|
            start.owes(token) <= #[trigger] (start.holdings)(token, start.contract.address) by {
            assert(holdings(token, address) >= 0);
        }
    } else {
        let before = start.after_all(requests.drop_last());
        let request = requests.last();
        law_every_history_is_solvent(address, holdings, requests.drop_last());
        law_requests_keep_the_contract_solvent(before, request);
        if before.goes_through(request) {
            law_calls_keep_the_contract_in_order(
                before.contract,
                request.call,
                request.now,
                request.now,
            );
        }
    }
}

/// On a clock that never runs backwards nobody ever takes more of a stream than
/// has vested: at the time of the last request and at every later moment, what
/// was withdrawn is at most what has vested.
pub proof fn law_withdrawals_never_overtake_vesting(
    address: Address,
    holdings: spec_fn(Address, Address) -> int,
    requests: Seq<Request>,
    now: u64,
)
    requires
        forall|token: Address| #[trigger] holdings(token, address) >= 0,
        forall|i: int, j: int|
            0 <= i <= j < requests.len() ==> #[trigger] requests[i].now <= #[trigger]
            requests[j].now,
        requests.len() > 0 ==> requests.last().now <= now,
    ensures
        Ledger::deployed(address, holdings).after_all(requests).contract.on_schedule(now),
    decreases requests.len(),
{
    if requests.len() > 0 {
        let request = requests.last();
        let earlier = requests.drop_last();
        if earlier.len() > 0 {
            assert(requests[earlier.len() - 1].now <= requests[requests.len() - 1].now);
        }
        assert forall|i: int, j: int| 0 <= i <= j < earlier.len() implies #[trigger]
        earlier[i].now <= #[trigger] earlier[j].now by {
            assert(requests[i].now <= requests[j].now);
        }
        law_withdrawals_never_overtake_vesting(address, holdings, earlier, request.now);
        law_every_history_is_solvent(address, holdings, earlier);
        let before = Ledger::deployed(address, holdings).after_all(earlier).contract;
        if Ledger::deployed(address, holdings).after_all(earlier).goes_through(request) {
            law_calls_keep_the_contract_in_order(before, request.call, request.now, now);
        } else {
            assert forall|id: u64| #[trigger] before.streams.contains_key(id) implies
                before.streams[id].withdrawn <= before.streams[id].vested_at(now) by {
                assert(before.admits(before.streams[id]));
                law_vesting_never_runs_backwards(before.streams[id], request.now, now);
            }
        }
    }
}

/// No request makes or loses tokens: the three parties to it hold as much
/// between them as before, and nobody else holds more or less.
pub proof fn law_requests_conserve_tokens(
    ledger: Ledger,
    request: Request,
    token: Address,
    sender: Address,
    recipient: Address,
    other: Address,
)
    requires
        ledger.in_order(),
        ledger.goes_through(request),
        match request.call {
            Call::Create { terms } => sender == terms.sender && recipient == terms.recipient,
            _ => exists|id: u64|
                request.call.names(id) && sender == ledger.contract.streams[id].sender && recipient
                    == ledger.contract.streams[id].recipient,
        },
    ensures
        ({
            let before = ledger.holdings;
            let after = ledger.after(request).holdings;
            let contract = ledger.contract.address;
            &&& after(token, sender) + after(token, recipient) + after(token, contract) == before(
                token,
                sender,
            ) + before(token, recipient) + before(token, contract)
            &&& other != sender && other != recipient && other != contract ==> after(token, other)
                == before(token, other)
        }),
{
    if !(request.call is Create) {
        let id = choose|id: u64|
            request.call.names(id) && sender == ledger.contract.streams[id].sender && recipient
                == ledger.contract.streams[id].recipient;
        lemma_kept_stream(ledger.contract, id, request.now);
    }
}

/// A request that the contract refuses, that lacks the authorization it needs or
/// whose payer lacks the tokens leaves no trace, no stream, no id and no moved
/// token, so that the same request again is answered in the same way.
pub proof fn law_a_rejected_request_leaves_no_trace(ledger: Ledger, request: Request)
    requires
        ({
            let Request { call, now, signers } = request;
            ||| ledger.contract.refusal(call, now) is Some
            ||| !signers.contains(ledger.contract.authorizer(call))
            ||| !ledger.covers(ledger.contract.transfer(call, now))
        }),
    ensures
        ledger.after(request) == ledger,
        !ledger.after(request).goes_through(request),
        ledger.after(request).contract.refusal(request.call, request.now)
            == ledger.contract.refusal(request.call, request.now),
{
}

/// Nobody but its own two parties has any authority over a stream: a request
/// that changes it was authorized by its recipient or by its sender. Without the
/// recipient nothing is withdrawn; without the sender it is not cancelled, and
/// its total and its window stay as they are. Who the parties are and in which
/// token they deal never changes.
pub proof fn law_a_stream_changes_only_with_its_parties(
    ledger: Ledger,
    request: Request,
    id: u64,
)
    requires
        ledger.in_order(),
        ledger.contract.streams.contains_key(id),
    ensures
        ({
            let before = ledger.contract.streams[id];
            let after = ledger.after(request).contract.streams[id];
            &&& after != before ==> request.signers.contains(before.sender)
                || request.signers.contains(before.recipient)
            &&& after.withdrawn != before.withdrawn ==> request.signers.contains(before.recipient)
            &&& after.cancelled != before.cancelled ==> request.signers.contains(before.sender)
            &&& after.total_amount != before.total_amount || after.start_time != before.start_time
                || after.end_time != before.end_time || after.cliff_time != before.cliff_time
                ==> request.signers.contains(before.sender)
            &&& after.sender == before.sender
            &&& after.recipient == before.recipient
            &&& after.token == before.token
        }),
{
    if ledger.goes_through(request) {
        law_a_call_touches_only_the_stream_it_names(
            ledger.contract,
            request.call,
            request.now,
            id,
        );
    }
}

/// How much `request` pays the recipient of stream `id`.
pub open spec fn pays_recipient(ledger: Ledger, id: u64, request: Request) -> int {
    if request.call.names(id) && !(request.call is Cancel) && ledger.goes_through(request) {
        ledger.contract.transfer(request.call, request.now).amount as int
    } else {
        0
    }
}

/// How much `request` pays back to the sender of stream `id`.
pub open spec fn pays_sender(ledger: Ledger, id: u64, request: Request) -> int {
    if request.call.names(id) && request.call is Cancel && ledger.goes_through(request) {
        ledger.contract.transfer(request.call, request.now).amount as int
    } else {
        0
    }
}

/// How much `requests` pay the recipient of stream `id` in all.
pub open spec fn paid_to_recipient(ledger: Ledger, id: u64, requests: Seq<Request>) -> int
    decreases requests.len(),
{
    if requests.len() == 0 {
        0
    } else {
        paid_to_recipient(ledger, id, requests.drop_last()) + pays_recipient(
            ledger.after_all(requests.drop_last()),
            id,
            requests.last(),
        )
    }
}

/// How much `requests` pay back to the sender of stream `id` in all.
pub open spec fn paid_to_sender(ledger: Ledger, id: u64, requests: Seq<Request>) -> int
    decreases requests.len(),
{
    if requests.len() == 0 {
        0
    } else {
        paid_to_sender(ledger, id, requests.drop_last()) + pays_sender(
            ledger.after_all(requests.drop_last()),
            id,
            requests.last(),
        )
    }
}

/// What was put into a stream comes out of it again, all of it and no more:
/// whatever is asked, what the recipient is paid, what the sender gets back and
/// what is yet to be paid out of the stream make up what there was to pay out.
pub proof fn law_a_stream_pays_out_what_was_put_in(
    ledger: Ledger,
    id: u64,
    requests: Seq<Request>,
)
    requires
        ledger.in_order(),
        ledger.contract.streams.contains_key(id),
    ensures
        ledger.after_all(requests).in_order(),
        ledger.after_all(requests).contract.streams.contains_key(id),
        ({
            let before = ledger.contract.streams[id];
            let after = ledger.after_all(requests).contract.streams[id];
            let to_recipient = paid_to_recipient(ledger, id, requests);
            let to_sender = paid_to_sender(ledger, id, requests);
            let left = after.total_amount - after.withdrawn;
            &&& to_recipient >= 0
            &&& to_sender >= 0
            &&& left >= 0
            &&& to_recipient + to_sender + left == before.total_amount - before.withdrawn
            &&& to_recipient == after.withdrawn - before.withdrawn
        }),
    decreases requests.len(),
{
    if requests.len() > 0 {
        let request = requests.last();
        let before = ledger.after_all(requests.drop_last());
        law_a_stream_pays_out_what_was_put_in(ledger, id, requests.drop_last());
        law_requests_keep_the_contract_solvent(before, request);
        lemma_kept_stream(before.contract, id, request.now);
        if before.goes_through(request) {
            law_a_call_touches_only_the_stream_it_names(
                before.contract,
                request.call,
                request.now,
                id,
            );
        }
    } else {
        lemma_kept_stream(ledger.contract, id, 0);
    }
}

} // verus!

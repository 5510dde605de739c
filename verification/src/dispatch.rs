use vstd::prelude::*;
use crate::error::GameError;
use crate::identity::Identity;
use crate::oracle::{fetch_price, refresh_outcome};
use crate::purchase::{buy_nft, purchase_outcome, settlement_valid, Purchase, TransferParties};
use crate::token::{is_transfer, unpacked_token_amount};

verus! {

/// The two instructions, as the leading tag byte names them.
#[derive(Clone, Copy, Debug, PartialEq, Eq, Structural)]
pub enum Opcode {
    /// Tag 0: refresh the record's price.
    RefreshPrice,
    /// Tag 1: purchase the position.
    Purchase,
}

/// What an instruction did.
#[derive(Debug, PartialEq, Eq)]
pub enum Outcome {
    /// The price was refreshed.
    Refreshed,
    /// A purchase was committed; its transfer is to be carried out.
    Purchased(Purchase),
}

/// The instruction that the first byte selects. Instruction data without a
/// first byte is malformed; a tag other than 0 and 1 names no instruction.
pub open spec fn opcode_of(data: Seq<u8>) -> Result<Opcode, GameError> {
    if data.len() == 0 {
        Err(GameError::MalformedInput)
    } else if data[0] == 0 {
        Ok(Opcode::RefreshPrice)
    } else if data[0] == 1 {
        Ok(Opcode::Purchase)
    } else {
        Err(GameError::UnknownInstruction)
    }
}

/// Reads the opcode from the head of the instruction data.
pub fn decode_instruction(instruction_data: &[u8]) -> (r: Result<Opcode, GameError>)
    ensures
        r == opcode_of(instruction_data@),
{
    if instruction_data.len() == 0 {
        return Err(GameError::MalformedInput);
    }
    let tag: u8 = instruction_data[0];
    if tag == 0 {
        Ok(Opcode::RefreshPrice)
    } else if tag == 1 {
        Ok(Opcode::Purchase)
    } else {
        Err(GameError::UnknownInstruction)
    }
}

/// The single entry point: reads the tag and hands the rest of the
/// instruction data to the handler it selects. A refresh takes the record and
/// the quote; a purchase takes the buyer, the whitelist, the funding account,
/// the parties of the transfer, the record and the payload behind the tag. Where the tag selects nothing,
/// nothing is touched.
pub fn process_instruction(
    instruction_data: &[u8],
    quote: u64,
    buyer: &Identity,
    buyer_signed: bool,
    whitelist: &[Identity],
    funding_account: &[u8],
    parties: &TransferParties,
    record: &mut Vec<u8>,
) -> (r: Result<Outcome, GameError>)
    ensures
        match opcode_of(instruction_data@) {
            Err(e) => r == Err::<Outcome, GameError>(e) && final(record)@ == old(record)@,
            Ok(Opcode::RefreshPrice) => match refresh_outcome(old(record)@, quote) {
                Ok(bytes) => r == Ok::<Outcome, GameError>(Outcome::Refreshed) && final(record)@
                    == bytes,
                Err(e) => r == Err::<Outcome, GameError>(e) && final(record)@ == old(record)@,
            },
            Ok(Opcode::Purchase) => match purchase_outcome(
                buyer@,
                buyer_signed,
                whitelist@,
                unpacked_token_amount(funding_account@),
                parties.token_program@,
                old(record)@,
                instruction_data@.subrange(1, instruction_data@.len() as int),
            ) {
                Ok(before) => r is Ok && r->Ok_0 is Purchased
                    && r->Ok_0->Purchased_0.settlement.amount == before.last_price
                    && r->Ok_0->Purchased_0.settlement.buyer@ == buyer@
                    && r->Ok_0->Purchased_0.settlement.before@ == before && settlement_valid(
                    r->Ok_0->Purchased_0.settlement,
                ) && is_transfer(
                    r->Ok_0->Purchased_0.transfer,
                    parties.source@,
                    parties.destination@,
                    buyer@,
                    before.last_price,
                ) && final(record)@ == before.sold_to(buyer@).encode(),
                Err(e) => r == Err::<Outcome, GameError>(e) && final(record)@ == old(record)@,
            },
        },
{
    match decode_instruction(instruction_data) {
        Err(e) => Err(e),
        Ok(Opcode::RefreshPrice) => match fetch_price(record, quote) {
            Ok(()) => Ok(Outcome::Refreshed),
            Err(e) => Err(e),
        },
        Ok(Opcode::Purchase) => {
            let payload = vstd::slice::slice_subrange(
                instruction_data,
                1,
                instruction_data.len(),
            );
            match buy_nft(buyer, buyer_signed, whitelist, funding_account, parties, record, payload) {
                Ok(purchase) => Ok(Outcome::Purchased(purchase)),
                Err(e) => Err(e),
            }
        },
    }
}

} // verus!

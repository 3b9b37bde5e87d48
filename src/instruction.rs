//! The instructions the registry accepts and their wire encoding: a one-byte
//! tag, then a tag-specific payload.
use crate::error::RegistryError;
use crate::state::{parse_entry, CreateUpdateEntryInstructionData, EntryView};
use vstd::prelude::*;

verus! {

/// One request to the registry.
#[derive(Debug)]
pub enum RegistryInstruction {
    /// Set up the metadata record and the two sentinels.
    InitializeRegistry { fee_amount: u64 },
    /// Change the fee amount, mint and destination.
    UpdateFees { fee_amount: u64 },
    /// Register, or revive, the node of a mint.
    CreateEntry {
        token_symbol: String,
        token_name: String,
        token_logo_url: String,
        token_tags: Vec<String>,
        token_extensions: Vec<Vec<String>>,
    },
    /// Tombstone the node of a mint.
    DeleteEntry,
    /// Overwrite the descriptive fields of a mint's node.
    UpdateEntry {
        token_symbol: String,
        token_name: String,
        token_logo_url: String,
        token_tags: Vec<String>,
        token_extensions: Vec<Vec<String>>,
    },
    /// Hand the fee authority to another identity.
    TransferFeeAuthority,
    /// Hand a node's update authority to another identity.
    TransferTokenAuthority,
}

/// The values an instruction carries.
pub enum InstructionView {
    InitializeRegistry { fee_amount: u64 },
    UpdateFees { fee_amount: u64 },
    CreateEntry { entry: EntryView },
    DeleteEntry,
    UpdateEntry { entry: EntryView },
    TransferFeeAuthority,
    TransferTokenAuthority,
}

impl View for RegistryInstruction {
    type V = InstructionView;

    open spec fn view(&self) -> InstructionView {
        match self {
            RegistryInstruction::InitializeRegistry { fee_amount } => {
                InstructionView::InitializeRegistry { fee_amount: *fee_amount }
            },
            RegistryInstruction::UpdateFees { fee_amount } => InstructionView::UpdateFees {
                fee_amount: *fee_amount,
            },
            RegistryInstruction::CreateEntry {
                token_symbol,
                token_name,
                token_logo_url,
                token_tags,
                token_extensions,
            } => InstructionView::CreateEntry {
                entry: EntryView {
                    symbol: token_symbol@,
                    name: token_name@,
                    logo_url: token_logo_url@,
                    tags: token_tags.deep_view(),
                    extensions: token_extensions.deep_view(),
                },
            },
            RegistryInstruction::DeleteEntry => InstructionView::DeleteEntry,
            RegistryInstruction::UpdateEntry {
                token_symbol,
                token_name,
                token_logo_url,
                token_tags,
                token_extensions,
            } => InstructionView::UpdateEntry {
                entry: EntryView {
                    symbol: token_symbol@,
                    name: token_name@,
                    logo_url: token_logo_url@,
                    tags: token_tags.deep_view(),
                    extensions: token_extensions.deep_view(),
                },
            },
            RegistryInstruction::TransferFeeAuthority => InstructionView::TransferFeeAuthority,
            RegistryInstruction::TransferTokenAuthority => InstructionView::TransferTokenAuthority,
        }
    }
}

/// The number held by the eight big-endian bytes of `b` from `p` on.
pub open spec fn be_u64_at(b: Seq<u8>, p: int) -> u64 {
    ((b[p] as u64) << 56u64) | ((b[p + 1] as u64) << 48u64) | ((b[p + 2] as u64) << 40u64) | ((b[p
        + 3] as u64) << 32u64) | ((b[p + 4] as u64) << 24u64) | ((b[p + 5] as u64) << 16u64) | ((b[p
        + 6] as u64) << 8u64) | (b[p + 7] as u64)
}

/// The entry fields that take up all of `b` after its tag byte.
pub open spec fn entry_payload(b: Seq<u8>) -> Option<EntryView> {
    match parse_entry(b, 1) {
        Some((e, q)) if q == b.len() => Some(e),
        _ => None,
    }
}

/// The instruction encoded by `b`, if any.
pub open spec fn parse_instruction(b: Seq<u8>) -> Option<InstructionView> {
    if b.len() == 0 {
        None
    } else if b[0] == 0 || b[0] == 1 {
        if b.len() < 9 {
            None
        } else if b[0] == 0 {
            Some(InstructionView::InitializeRegistry { fee_amount: be_u64_at(b, 1) })
        } else {
            Some(InstructionView::UpdateFees { fee_amount: be_u64_at(b, 1) })
        }
    } else if b[0] == 2 || b[0] == 4 {
        match entry_payload(b) {
            None => None,
            Some(entry) => if b[0] == 2 {
                Some(InstructionView::CreateEntry { entry })
            } else {
                Some(InstructionView::UpdateEntry { entry })
            },
        }
    } else if b[0] == 3 {
        Some(InstructionView::DeleteEntry)
    } else if b[0] == 5 {
        Some(InstructionView::TransferFeeAuthority)
    } else if b[0] == 6 {
        Some(InstructionView::TransferTokenAuthority)
    } else {
        None
    }
}

impl RegistryInstruction {
    /// Decodes an instruction; anything that is not one is `InvalidInstructionData`.
    pub fn unpack(input: &[u8]) -> (r: Result<RegistryInstruction, RegistryError>)
        ensures
            match parse_instruction(input@) {
                None => r matches Err(e) && e == RegistryError::InvalidInstructionData,
                Some(v) => r matches Ok(i) && i@ == v,
            },
    {
        if input.len() == 0 {
            return Err(RegistryError::InvalidInstructionData);
        }
        let tag = input[0];
        if tag == 0 || tag == 1 {
            if input.len() < 9 {
                return Err(RegistryError::InvalidInstructionData);
            }
            let fee_amount = ((input[1] as u64) << 56u64) | ((input[2] as u64) << 48u64) | ((
            input[3] as u64) << 40u64) | ((input[4] as u64) << 32u64) | ((input[5] as u64)
                << 24u64) | ((input[6] as u64) << 16u64) | ((input[7] as u64) << 8u64) | (input[8]
                as u64);
            if tag == 0 {
                Ok(RegistryInstruction::InitializeRegistry { fee_amount })
            } else {
                Ok(RegistryInstruction::UpdateFees { fee_amount })
            }
        } else if tag == 2 || tag == 4 {
            let data = match CreateUpdateEntryInstructionData::read_at(input, 1) {
                Some((d, q)) if q == input.len() => d,
                _ => return Err(RegistryError::InvalidInstructionData),
            };
            if tag == 2 {
                Ok(
                    RegistryInstruction::CreateEntry {
                        token_symbol: data.token_symbol,
                        token_name: data.token_name,
                        token_logo_url: data.token_logo_url,
                        token_tags: data.token_tags,
                        token_extensions: data.token_extensions,
                    },
                )
            } else {
                Ok(
                    RegistryInstruction::UpdateEntry {
                        token_symbol: data.token_symbol,
                        token_name: data.token_name,
                        token_logo_url: data.token_logo_url,
                        token_tags: data.token_tags,
                        token_extensions: data.token_extensions,
                    },
                )
            }
        } else if tag == 3 {
            Ok(RegistryInstruction::DeleteEntry)
        } else if tag == 5 {
            Ok(RegistryInstruction::TransferFeeAuthority)
        } else if tag == 6 {
            Ok(RegistryInstruction::TransferTokenAuthority)
        } else {
            Err(RegistryError::InvalidInstructionData)
        }
    }
}

} // verus!

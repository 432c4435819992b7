//! The flash configuration field (16 bytes at 0x400): backdoor key, flash
//! protection, security and option bytes read by the chip at reset.

use vstd::prelude::*;

verus! {

/// Index of FSEC in the field.
pub const FSEC_INDEX: usize = 12;
/// FSEC value: unsecured (SEC = 10), backdoor key disabled.
pub const FSEC_UNSECURED: u8 = 0xFE;

/// The configuration field: backdoor key all ones, no flash protection
/// (FPROT all ones), unsecured, default options.
pub open spec fn flash_config_spec() -> Seq<u8> {
    seq![
        0xFFu8, 0xFF, 0xFF, 0xFF, 0xFF, 0xFF, 0xFF, 0xFF,
        0xFF, 0xFF, 0xFF, 0xFF,
        0xFE, 0xFF, 0xFF, 0xFF,
    ]
}

/// The bytes to place at the flash configuration address.
pub fn flash_config() -> (r: [u8; 16])
    ensures
        r@ == flash_config_spec(),
{
    [
        0xFF, 0xFF, 0xFF, 0xFF, 0xFF, 0xFF, 0xFF, 0xFF,
        0xFF, 0xFF, 0xFF, 0xFF,
        FSEC_UNSECURED, 0xFF, 0xFF, 0xFF,
    ]
}

/// The field leaves the chip unsecured, with every protection region
/// unprotected: FSEC is 0xFE (SEC = 0b10, so a debugger can always mass
/// erase and reconnect) and the four FPROT bytes are all ones.
pub proof fn lemma_flash_config_unsecured()
    ensures
        flash_config_spec().len() == 16,
        flash_config_spec()[FSEC_INDEX as int] == FSEC_UNSECURED,
        flash_config_spec()[FSEC_INDEX as int] & 0x03 == 0x02,
        forall|i: int| 8 <= i < 12 ==> flash_config_spec()[i] == 0xFF,
{
    assert(0xFEu8 & 0x03u8 == 0x02u8) by (bit_vector);
}

} // verus!

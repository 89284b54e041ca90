use txlat::fees::{
    boosted_gas_price, eip1559_fees, legacy_fees, self_transfer_descriptor, FeeParams,
    SIMPLE_TRANSFER_GAS, WEI_PER_GWEI,
};

#[test]
fn gas_price_is_tripled() {
    assert_eq!(boosted_gas_price(2_000_000_000), 6_000_000_000);
}

#[test]
fn zero_gas_price_falls_back_to_one_gwei() {
    assert_eq!(boosted_gas_price(0), WEI_PER_GWEI);
}

#[test]
fn oversized_gas_price_saturates() {
    assert_eq!(boosted_gas_price(u128::MAX / 2), u128::MAX);
}

#[test]
fn legacy_fees_carry_the_boosted_price() {
    assert_eq!(legacy_fees(3), FeeParams::Legacy { gas_price_wei: 9 });
}

#[test]
fn eip1559_uses_the_gas_price_when_it_exceeds_the_priority_fee() {
    let fees = eip1559_fees(5_000_000_000);
    assert_eq!(
        fees,
        FeeParams::Eip1559 {
            max_fee_per_gas: 5_000_000_000,
            max_priority_fee_per_gas: WEI_PER_GWEI,
        }
    );
}

#[test]
fn eip1559_raises_a_low_gas_price_to_twice_the_priority_fee() {
    let fees = eip1559_fees(10);
    assert_eq!(
        fees,
        FeeParams::Eip1559 {
            max_fee_per_gas: 2 * WEI_PER_GWEI,
            max_priority_fee_per_gas: WEI_PER_GWEI,
        }
    );
}

#[test]
fn descriptor_is_a_zero_value_self_transfer() {
    let fees = eip1559_fees(5_000_000_000);
    let tx = self_transfer_descriptor(vec![0x11; 20], 42, 1337, fees);
    assert_eq!(tx.to, vec![0x11; 20]);
    assert_eq!(tx.value_wei, 0);
    assert_eq!(tx.nonce, 42);
    assert_eq!(tx.gas_limit, SIMPLE_TRANSFER_GAS);
    assert_eq!(tx.fees, fees);
    assert_eq!(tx.chain_id, 1337);
}

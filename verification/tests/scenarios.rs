use token_bridge_relayer::registry::Registry;
use token_bridge_relayer::{ErrorKind, Pubkey, RegisteredToken, TokenBridgeRelayerError};

fn scenario_key(fill: u8) -> Pubkey {
    Pubkey::new_from_array([fill; 32])
}

#[test]
fn scenario_owner_registers_asset() {
    let owner = scenario_key(1);
    let asset_m = scenario_key(40);
    let mut registry = Registry::new(owner);

    assert_eq!(registry.register(&owner, &asset_m, 100, 0), Ok(()));
    assert_eq!(
        registry.get(&asset_m),
        Some(RegisteredToken { swap_rate: 100, max_native_swap_amount: 0, is_registered: true })
    );
    assert!(registry.is_registered(&asset_m));
}

#[test]
fn scenario_owner_registers_asset_again() {
    let owner = scenario_key(1);
    let asset_m = scenario_key(40);
    let mut registry = Registry::new(owner);
    assert_eq!(registry.register(&owner, &asset_m, 100, 0), Ok(()));

    let again = registry.register(&owner, &asset_m, 50, 0);
    assert_eq!(again, Err(TokenBridgeRelayerError::TokenAlreadyRegistered));
    assert_eq!(again.unwrap_err().kind(), ErrorKind::StateConflict);
    assert_eq!(
        registry.get(&asset_m),
        Some(RegisteredToken { swap_rate: 100, max_native_swap_amount: 0, is_registered: true })
    );
}

#[test]
fn scenario_native_asset_with_swap_amount() {
    let owner = scenario_key(1);
    let native = Pubkey::native_mint();
    let mut registry = Registry::new(owner);

    let res = registry.register(&owner, &native, 10, 5);
    assert_eq!(res, Err(TokenBridgeRelayerError::SwapsNotAllowedForNativeMint));
    let refusal = res.unwrap_err();
    assert_eq!(refusal.kind(), ErrorKind::ValidationError);
    assert_eq!(refusal.message(), "swaps not allowed for native asset");
    assert_eq!(registry.get(&native), None);
    assert!(!registry.is_registered(&native));
}

#[test]
fn scenario_non_owner_registers_new_asset() {
    let owner = scenario_key(1);
    let stranger = scenario_key(2);
    let asset_p = scenario_key(41);
    let mut registry = Registry::new(owner);

    let res = registry.register(&stranger, &asset_p, 1, 0);
    assert_eq!(res, Err(TokenBridgeRelayerError::OwnerOnly));
    assert_eq!(res.unwrap_err().kind(), ErrorKind::AuthorizationError);
    assert_eq!(registry.get(&asset_p), None);
    assert!(!registry.is_registered(&asset_p));
}

#[test]
fn scenarios_in_sequence_on_one_registry() {
    let owner = scenario_key(1);
    let stranger = scenario_key(2);
    let asset_m = scenario_key(40);
    let asset_p = scenario_key(41);
    let native = Pubkey::native_mint();
    let mut registry = Registry::new(owner);
    let stored = RegisteredToken { swap_rate: 100, max_native_swap_amount: 0, is_registered: true };

    assert_eq!(registry.register(&owner, &asset_m, 100, 0), Ok(()));
    assert_eq!(registry.get(&asset_m), Some(stored));

    assert_eq!(
        registry.register(&owner, &asset_m, 50, 0),
        Err(TokenBridgeRelayerError::TokenAlreadyRegistered)
    );
    assert_eq!(registry.get(&asset_m), Some(stored));

    assert_eq!(
        registry.register(&owner, &native, 10, 5),
        Err(TokenBridgeRelayerError::SwapsNotAllowedForNativeMint)
    );
    assert_eq!(registry.get(&native), None);

    assert_eq!(
        registry.register(&stranger, &asset_p, 1, 0),
        Err(TokenBridgeRelayerError::OwnerOnly)
    );
    assert_eq!(registry.get(&asset_p), None);
    assert_eq!(registry.get(&asset_m), Some(stored));
    assert_eq!(registry.owner(), owner);
}

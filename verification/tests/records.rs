use token_bridge_relayer::{
    register_token, ErrorKind, Pubkey, RegisterToken, RegisteredToken, SenderConfig,
    TokenBridgeRelayerError,
};

fn record_key(fill: u8) -> Pubkey {
    Pubkey::new_from_array([fill; 32])
}

fn request(caller: Pubkey, owner: Pubkey, record: RegisteredToken, mint: Pubkey) -> RegisterToken {
    RegisterToken { owner: caller, config: SenderConfig { owner }, registered_token: record, mint }
}

fn assert_same_request(after: &RegisterToken, before: &RegisterToken) {
    assert_eq!(after.owner, before.owner);
    assert_eq!(after.config.owner, before.config.owner);
    assert_eq!(after.registered_token, before.registered_token);
    assert_eq!(after.mint, before.mint);
}

#[test]
fn unregistered_record_is_all_zero() {
    assert_eq!(
        RegisteredToken::unregistered(),
        RegisteredToken { swap_rate: 0, max_native_swap_amount: 0, is_registered: false }
    );
}

#[test]
fn register_token_writes_the_record() {
    let owner = record_key(1);
    let mint = record_key(2);
    let before = request(owner, owner, RegisteredToken::unregistered(), mint);
    let mut ctx = before;
    assert_eq!(register_token(&mut ctx, 100, 7), Ok(()));
    assert_eq!(
        ctx.registered_token,
        RegisteredToken { swap_rate: 100, max_native_swap_amount: 7, is_registered: true }
    );
    assert_eq!(ctx.owner, before.owner);
    assert_eq!(ctx.config.owner, before.config.owner);
    assert_eq!(ctx.mint, before.mint);
}

#[test]
fn register_token_overwrites_an_unregistered_record() {
    let owner = record_key(1);
    let mint = record_key(2);
    let stale = RegisteredToken { swap_rate: 9, max_native_swap_amount: 9, is_registered: false };
    let mut ctx = request(owner, owner, stale, mint);
    assert_eq!(register_token(&mut ctx, 3, 0), Ok(()));
    assert_eq!(
        ctx.registered_token,
        RegisteredToken { swap_rate: 3, max_native_swap_amount: 0, is_registered: true }
    );
}

#[test]
fn register_token_refuses_a_stranger() {
    let owner = record_key(1);
    let stranger = record_key(3);
    let before = request(stranger, owner, RegisteredToken::unregistered(), record_key(2));
    let mut ctx = before;
    assert_eq!(register_token(&mut ctx, 1, 0), Err(TokenBridgeRelayerError::OwnerOnly));
    assert_same_request(&ctx, &before);
}

#[test]
fn register_token_refuses_a_stranger_who_differs_in_the_last_byte() {
    let owner = record_key(1);
    let mut bytes = [1u8; 32];
    bytes[31] = 0;
    let stranger = Pubkey::new_from_array(bytes);
    let before = request(stranger, owner, RegisteredToken::unregistered(), record_key(2));
    let mut ctx = before;
    assert_eq!(register_token(&mut ctx, 1, 0), Err(TokenBridgeRelayerError::OwnerOnly));
    assert_same_request(&ctx, &before);
}

#[test]
fn register_token_refuses_a_registered_record() {
    let owner = record_key(1);
    let stored = RegisteredToken { swap_rate: 100, max_native_swap_amount: 0, is_registered: true };
    let before = request(owner, owner, stored, record_key(2));
    let mut ctx = before;
    assert_eq!(
        register_token(&mut ctx, 50, 0),
        Err(TokenBridgeRelayerError::TokenAlreadyRegistered)
    );
    assert_same_request(&ctx, &before);
}

#[test]
fn register_token_refuses_a_zero_swap_rate() {
    let owner = record_key(1);
    let before = request(owner, owner, RegisteredToken::unregistered(), record_key(2));
    let mut ctx = before;
    assert_eq!(register_token(&mut ctx, 0, 0), Err(TokenBridgeRelayerError::ZeroSwapRate));
    assert_same_request(&ctx, &before);
}

#[test]
fn register_token_refuses_a_swap_amount_for_the_native_asset() {
    let owner = record_key(1);
    let before = request(owner, owner, RegisteredToken::unregistered(), Pubkey::native_mint());
    let mut ctx = before;
    assert_eq!(
        register_token(&mut ctx, 10, 5),
        Err(TokenBridgeRelayerError::SwapsNotAllowedForNativeMint)
    );
    assert_same_request(&ctx, &before);
    assert_eq!(register_token(&mut ctx, 10, 0), Ok(()));
    assert_eq!(
        ctx.registered_token,
        RegisteredToken { swap_rate: 10, max_native_swap_amount: 0, is_registered: true }
    );
}

#[test]
fn register_token_takes_the_rules_in_order() {
    let owner = record_key(1);
    let stranger = record_key(3);
    let native = Pubkey::native_mint();
    let stored = RegisteredToken { swap_rate: 1, max_native_swap_amount: 0, is_registered: true };

    let mut ctx = request(stranger, owner, stored, native);
    assert_eq!(register_token(&mut ctx, 0, 5), Err(TokenBridgeRelayerError::OwnerOnly));

    let mut ctx = request(owner, owner, stored, native);
    assert_eq!(
        register_token(&mut ctx, 0, 5),
        Err(TokenBridgeRelayerError::TokenAlreadyRegistered)
    );

    let mut ctx = request(owner, owner, RegisteredToken::unregistered(), native);
    assert_eq!(register_token(&mut ctx, 0, 5), Err(TokenBridgeRelayerError::ZeroSwapRate));

    let mut ctx = request(owner, owner, RegisteredToken::unregistered(), native);
    assert_eq!(
        register_token(&mut ctx, 1, 5),
        Err(TokenBridgeRelayerError::SwapsNotAllowedForNativeMint)
    );
}

#[test]
fn check_owner_accepts_the_owner_only() {
    let owner = record_key(1);
    let config = SenderConfig { owner };
    assert_eq!(config.check_owner(&owner), Ok(()));
    assert_eq!(config.check_owner(&record_key(1)), Ok(()));
    assert_eq!(config.check_owner(&record_key(2)), Err(TokenBridgeRelayerError::OwnerOnly));
    assert_eq!(
        config.check_owner(&Pubkey::native_mint()),
        Err(TokenBridgeRelayerError::OwnerOnly)
    );
}

#[test]
fn every_refusal_has_its_kind() {
    assert_eq!(TokenBridgeRelayerError::OwnerOnly.kind(), ErrorKind::AuthorizationError);
    assert_eq!(TokenBridgeRelayerError::TokenAlreadyRegistered.kind(), ErrorKind::StateConflict);
    assert_eq!(TokenBridgeRelayerError::ZeroSwapRate.kind(), ErrorKind::ValidationError);
    assert_eq!(
        TokenBridgeRelayerError::SwapsNotAllowedForNativeMint.kind(),
        ErrorKind::ValidationError
    );
}

#[test]
fn every_refusal_has_its_text() {
    assert_eq!(TokenBridgeRelayerError::OwnerOnly.message(), "caller is not the owner");
    assert_eq!(TokenBridgeRelayerError::TokenAlreadyRegistered.message(), "already registered");
    assert_eq!(TokenBridgeRelayerError::ZeroSwapRate.message(), "zero swap rate");
    assert_eq!(
        TokenBridgeRelayerError::SwapsNotAllowedForNativeMint.message(),
        "swaps not allowed for native asset"
    );
}

use echo::account_info::{next_account_info, AccountInfo};
use echo::error::{EchoError, ProgramError, PubkeyError};
use echo::instruction::EchoInstruction;
use echo::processor::{assert_is_writable, assert_with_msg, Invocation, Processor, Transition};
use echo::program::CreateAccount;
use echo::pubkey::Pubkey;
use echo::state::{AuthorizedBufferHeader, VendingMachineBufferHeader};

fn key(n: u8) -> Pubkey {
    Pubkey::new_from_array([n; 32])
}

fn outside(key: &Pubkey) -> solana_program::pubkey::Pubkey {
    solana_program::pubkey::Pubkey::new_from_array(key.to_bytes())
}

fn account(key: Pubkey, is_signer: bool, is_writable: bool, data: Vec<u8>) -> AccountInfo {
    AccountInfo { key, is_signer, is_writable, data }
}

fn found(label: &[u8], owner: &Pubkey, value: u64, program_id: &Pubkey) -> (Pubkey, u8) {
    let (pda, bump) = solana_program::pubkey::Pubkey::find_program_address(
        &[label, outside(owner).as_ref(), &value.to_le_bytes()],
        &outside(program_id),
    );
    (Pubkey::new_from_array(pda.to_bytes()), bump)
}

fn custom(e: EchoError) -> ProgramError {
    ProgramError::Custom(e.code())
}

#[test]
fn errors_have_their_codes_and_messages() {
    let all = [
        (EchoError::NotImplemented, 0u32, "Instruction not implemented."),
        (EchoError::NonZeroData, 1, "Echo_Buffer has non-zero data"),
        (EchoError::AuthorityNotSigner, 2, "Authority must be signer"),
        (EchoError::InvalidAuthority, 3, "Invalid Authority"),
        (EchoError::InvalidAuthorizedBuffer, 4, "Invalid Authorized_buffer_key"),
    ];
    for (e, code, message) in all {
        assert_eq!(e.code(), code);
        assert_eq!(EchoError::from_u32(code), Some(e));
        assert_eq!(e.message(), message);
        assert_eq!(ProgramError::from(e), ProgramError::Custom(code));
        let converted: ProgramError = e.into();
        assert_eq!(converted, ProgramError::Custom(code));
    }
    assert_eq!(EchoError::from_u32(5), None);
    assert_eq!(EchoError::from_u32(u32::MAX), None);
    assert_eq!(
        ProgramError::from(PubkeyError::MaxSeedLengthExceeded),
        ProgramError::MaxSeedLengthExceeded
    );
    assert_eq!(ProgramError::from(PubkeyError::InvalidSeeds), ProgramError::InvalidSeeds);
    assert_eq!(ProgramError::from(PubkeyError::IllegalOwner), ProgramError::IllegalOwner);
}

#[test]
fn assertions_fail_with_the_error_given() {
    assert_eq!(assert_with_msg(true, ProgramError::InvalidArgument, "fine"), Ok(()));
    assert_eq!(
        assert_with_msg(false, ProgramError::InvalidArgument, "not fine"),
        Err(ProgramError::InvalidArgument)
    );
    assert_eq!(
        assert_with_msg(false, ProgramError::Custom(9), "not fine"),
        Err(ProgramError::Custom(9))
    );
    assert_eq!(assert_is_writable(&account(key(1), false, true, vec![])), Ok(()));
    assert_eq!(
        assert_is_writable(&account(key(1), true, false, vec![])),
        Err(ProgramError::InvalidArgument)
    );
}

#[test]
fn accounts_are_handed_out_in_order() {
    let accounts = vec![account(key(1), false, false, vec![1]), account(key(2), true, true, vec![])];
    let mut position = 0;
    assert_eq!(next_account_info(&accounts, &mut position), Ok(&accounts[0]));
    assert_eq!(position, 1);
    assert_eq!(next_account_info(&accounts, &mut position), Ok(&accounts[1]));
    assert_eq!(position, 2);
    assert_eq!(
        next_account_info(&accounts, &mut position),
        Err(ProgramError::NotEnoughAccountKeys)
    );
    assert_eq!(position, 2);
    assert_eq!(accounts[0].data_len(), 1);
}

#[test]
fn bytes_that_are_no_instruction_are_refused() {
    let accounts = vec![account(key(1), true, true, vec![0; 4])];
    for bytes in [&[][..], &[9][..], &[0, 4, 0, 0, 0, 1][..], &[1, 0][..]] {
        assert_eq!(
            Processor::process_instruction(&key(9), &accounts, bytes),
            Err(ProgramError::InvalidInstructionData)
        );
    }
}

#[test]
fn echo_writes_the_payload_left_aligned() {
    for (len, payload, expected) in [
        (4usize, &b"echo"[..], &b"echo"[..]),
        (6, &b"echo"[..], &b"echo\0\0"[..]),
        (2, &b"echo"[..], &b"ec"[..]),
        (3, &b""[..], &b"\0\0\0"[..]),
    ] {
        let mut accounts = vec![account(key(1), false, false, vec![0; len])];
        let transition = Processor::process_echo(&accounts, payload).unwrap();
        assert_eq!(transition, Transition { call: None, data: expected.to_vec() });
        Processor::commit::<ProgramError>(&mut accounts[0], transition, Ok(())).unwrap();
        assert_eq!(accounts[0], account(key(1), false, false, expected.to_vec()));
    }
}

#[test]
fn echo_refuses_a_buffer_that_is_not_untouched() {
    let non_zero = custom(EchoError::NonZeroData);
    assert_eq!(Processor::process_echo(&[], b"echo"), Err(ProgramError::NotEnoughAccountKeys));
    for data in [vec![], vec![1], vec![0, 0, 0, 1], vec![1, 0, 0, 0], vec![0, 7, 0]] {
        let accounts = vec![account(key(1), true, true, data.clone())];
        assert_eq!(Processor::process_echo(&accounts, b"echo"), Err(non_zero));
        assert_eq!(Processor::process_echo(&accounts, b""), Err(non_zero));
        assert_eq!(accounts[0].data, data);
    }
}

#[test]
fn initialize_authorized_echo_checks_in_order() {
    let program_id = key(9);
    let authority = key(2);
    let (pda, bump) = found(b"authority", &authority, 1, &program_id);
    let process = |accounts: &[AccountInfo], size: u64| {
        Processor::process_initialize_authorized_echo(&program_id, accounts, 1, size)
    };

    assert_eq!(process(&[], 24), Err(ProgramError::NotEnoughAccountKeys));
    assert_eq!(
        process(&[account(pda, false, true, vec![])], 24),
        Err(ProgramError::NotEnoughAccountKeys)
    );
    let unsigned = [account(key(1), false, true, vec![]), account(authority, false, true, vec![])];
    assert_eq!(process(&unsigned, 0), Err(custom(EchoError::AuthorityNotSigner)));
    let elsewhere = [account(key(1), false, true, vec![]), account(authority, true, true, vec![])];
    assert_eq!(process(&elsewhere, 0), Err(custom(EchoError::InvalidAuthorizedBuffer)));
    assert_eq!(process(&elsewhere, 24), Err(custom(EchoError::InvalidAuthorizedBuffer)));
    let right = [account(pda, false, false, vec![]), account(authority, true, false, vec![])];
    assert_eq!(process(&right, 12), Err(ProgramError::InvalidArgument));
    assert_eq!(process(&right, 0), Err(ProgramError::InvalidArgument));
    assert_eq!(process(&right, 14 + u32::MAX as u64), Err(ProgramError::InvalidArgument));

    let transition = process(&right, 24).unwrap();
    assert_eq!(
        transition.call,
        Some(Invocation::CreateAccount(CreateAccount {
            payer: authority,
            new_account: pda,
            space: 24,
            owner: program_id,
            signer_seeds: vec![
                b"authority".to_vec(),
                authority.to_vec(),
                vec![1, 0, 0, 0, 0, 0, 0, 0],
                vec![bump],
            ],
        }))
    );
    assert_eq!(
        AuthorizedBufferHeader::try_from_slice(&transition.data),
        Ok(AuthorizedBufferHeader { bump_seed: bump, buffer_seed: 1, echo_data: vec![0; 11] })
    );
    assert_eq!(transition.data.len(), 24);

    // Another seed or another authority belongs to another address.
    assert_eq!(
        Processor::process_initialize_authorized_echo(&program_id, &right, 2, 24),
        Err(custom(EchoError::InvalidAuthorizedBuffer))
    );
    let other = [account(pda, false, false, vec![]), account(key(3), true, false, vec![])];
    assert_eq!(process(&other, 24), Err(custom(EchoError::InvalidAuthorizedBuffer)));
    assert_eq!(
        Processor::process_initialize_authorized_echo(&key(8), &right, 1, 24),
        Err(custom(EchoError::InvalidAuthorizedBuffer))
    );
}

#[test]
fn authorized_echo_checks_in_order() {
    let program_id = key(9);
    let authority = key(2);
    let (pda, bump) = found(b"authority", &authority, 5, &program_id);
    let record = AuthorizedBufferHeader { bump_seed: bump, buffer_seed: 5, echo_data: vec![1; 4] }
        .try_to_vec()
        .unwrap();
    let process =
        |accounts: &[AccountInfo]| Processor::process_authorized_echo(&program_id, accounts, b"hi");

    assert_eq!(
        process(&[account(pda, false, true, record.clone())]),
        Err(ProgramError::NotEnoughAccountKeys)
    );
    let unsigned =
        [account(pda, false, true, vec![]), account(authority, false, false, vec![])];
    assert_eq!(process(&unsigned), Err(custom(EchoError::AuthorityNotSigner)));
    for malformed in [vec![], vec![0; 12], record[..record.len() - 1].to_vec(), vec![0; 24]] {
        let accounts =
            [account(pda, false, true, malformed), account(authority, true, false, vec![])];
        assert_eq!(process(&accounts), Err(ProgramError::BorshIoError));
    }
    let stranger =
        [account(pda, false, true, record.clone()), account(key(3), true, false, vec![])];
    assert!(matches!(
        process(&stranger),
        Err(ProgramError::Custom(3)) | Err(ProgramError::InvalidSeeds)
    ));
    let elsewhere =
        [account(key(1), false, true, record.clone()), account(authority, true, false, vec![])];
    assert_eq!(process(&elsewhere), Err(custom(EchoError::InvalidAuthority)));

    let right = [account(pda, false, true, record.clone()), account(authority, true, false, vec![])];
    let transition = process(&right).unwrap();
    assert_eq!(transition.call, None);
    assert_eq!(
        AuthorizedBufferHeader::try_from_slice(&transition.data),
        Ok(AuthorizedBufferHeader { bump_seed: bump, buffer_seed: 5, echo_data: b"hi\0\0".to_vec() })
    );
}

#[test]
fn authorized_echo_with_a_bump_seed_that_derives_nothing_fails() {
    let program_id = key(9);
    let authority = key(2);
    for seed in 0u64..64 {
        let (pda, bump) = found(b"authority", &authority, seed, &program_id);
        if bump == 255 {
            continue;
        }
        let record = AuthorizedBufferHeader { bump_seed: 255, buffer_seed: seed, echo_data: vec![0; 4] }
            .try_to_vec()
            .unwrap();
        let accounts = [account(pda, false, true, record), account(authority, true, false, vec![])];
        assert_eq!(
            Processor::process_authorized_echo(&program_id, &accounts, b"hi"),
            Err(ProgramError::InvalidSeeds)
        );
        return;
    }
    panic!("every seed was found at bump seed 255");
}

#[test]
fn authorized_echo_twice_leaves_what_one_leaves() {
    let program_id = key(9);
    let authority = key(2);
    let (pda, bump) = found(b"authority", &authority, 5, &program_id);
    let record = AuthorizedBufferHeader { bump_seed: bump, buffer_seed: 5, echo_data: vec![9; 8] }
        .try_to_vec()
        .unwrap();
    let mut accounts = vec![account(pda, false, true, record), account(authority, true, false, vec![])];
    let first = Processor::process_authorized_echo(&program_id, &accounts, b"hello").unwrap();
    Processor::commit::<ProgramError>(&mut accounts[0], first.clone(), Ok(())).unwrap();
    let once = accounts[0].data.clone();
    let second = Processor::process_authorized_echo(&program_id, &accounts, b"hello").unwrap();
    assert_eq!(second, first);
    Processor::commit::<ProgramError>(&mut accounts[0], second, Ok(())).unwrap();
    assert_eq!(accounts[0].data, once);
    assert_eq!(
        AuthorizedBufferHeader::try_from_slice(&once).unwrap().echo_data,
        b"hello\0\0\0".to_vec()
    );
    // A shorter payload leaves nothing of the longer one behind.
    let third = Processor::process_authorized_echo(&program_id, &accounts, b"yo").unwrap();
    assert_eq!(
        AuthorizedBufferHeader::try_from_slice(&third.data).unwrap().echo_data,
        b"yo\0\0\0\0\0\0".to_vec()
    );
}

#[test]
fn initialize_vending_machine_echo_checks_in_order() {
    let program_id = key(9);
    let mint = key(4);
    let payer = key(2);
    let (pda, bump) = found(b"vending_machine", &mint, 42, &program_id);
    let process = |accounts: &[AccountInfo], size: u64| {
        Processor::process_initialize_vending_machine_echo(&program_id, accounts, 42, size)
    };
    let accounts = |buffer: Pubkey, signed: bool, writable: bool| {
        vec![
            account(buffer, false, writable, vec![]),
            account(mint, false, false, vec![]),
            account(payer, signed, true, vec![]),
            account(key(0), false, false, vec![]),
        ]
    };
    assert_eq!(process(&accounts(pda, true, true)[..3], 60), Err(ProgramError::NotEnoughAccountKeys));
    assert_eq!(process(&accounts(pda, false, false), 60), Err(custom(EchoError::AuthorityNotSigner)));
    assert_eq!(process(&accounts(pda, true, false), 60), Err(ProgramError::InvalidArgument));
    assert_eq!(
        process(&accounts(key(1), true, true), 0),
        Err(custom(EchoError::InvalidAuthorizedBuffer))
    );
    assert_eq!(process(&accounts(pda, true, true), 44), Err(ProgramError::InvalidArgument));

    let transition = process(&accounts(pda, true, true), 60).unwrap();
    assert_eq!(
        transition.call,
        Some(Invocation::CreateAccount(CreateAccount {
            payer,
            new_account: pda,
            space: 60,
            owner: program_id,
            signer_seeds: vec![
                b"vending_machine".to_vec(),
                mint.to_vec(),
                vec![42, 0, 0, 0, 0, 0, 0, 0],
                vec![bump],
            ],
        }))
    );
    assert_eq!(
        VendingMachineBufferHeader::try_from_slice(&transition.data),
        Ok(VendingMachineBufferHeader {
            bump_seed: bump,
            price: 42,
            vending_machine_mint: mint,
            echo_data: vec![0; 15],
        })
    );
    assert_eq!(transition.data.len(), 60);
}

#[test]
fn vending_machine_echo_checks_in_order() {
    let program_id = key(9);
    let mint = key(4);
    let user = key(2);
    let token_account = key(5);
    let (pda, bump) = found(b"vending_machine", &mint, 42, &program_id);
    let record = VendingMachineBufferHeader {
        bump_seed: bump,
        price: 42,
        vending_machine_mint: mint,
        echo_data: vec![1; 3],
    }
    .try_to_vec()
    .unwrap();
    let process = |accounts: &[AccountInfo]| {
        Processor::process_vending_machine_echo(&program_id, accounts, b"hello")
    };
    let accounts = |buffer: Pubkey, data: Vec<u8>, signed: bool, writable: [bool; 3]| {
        vec![
            account(buffer, false, writable[0], data),
            account(user, signed, false, vec![]),
            account(token_account, false, writable[1], vec![]),
            account(mint, false, writable[2], vec![]),
            account(key(0), false, false, vec![]),
        ]
    };
    let all = [true; 3];
    assert_eq!(
        process(&accounts(pda, record.clone(), true, all)[..4]),
        Err(ProgramError::NotEnoughAccountKeys)
    );
    assert_eq!(
        process(&accounts(pda, record.clone(), false, [false; 3])),
        Err(custom(EchoError::AuthorityNotSigner))
    );
    for writable in [[false, true, true], [true, false, true], [true, true, false]] {
        assert_eq!(
            process(&accounts(pda, vec![], true, writable)),
            Err(ProgramError::InvalidArgument)
        );
    }
    assert_eq!(process(&accounts(pda, vec![0; 44], true, all)), Err(ProgramError::BorshIoError));
    assert_eq!(
        process(&accounts(key(1), record.clone(), true, all)),
        Err(custom(EchoError::InvalidAuthority))
    );

    let transition = process(&accounts(pda, record.clone(), true, all)).unwrap();
    match &transition.call {
        Some(Invocation::Burn(instruction)) => {
            assert_eq!(instruction.program_id.to_bytes(), spl_token::id().to_bytes());
            assert_eq!(instruction.data, vec![8, 42, 0, 0, 0, 0, 0, 0, 0]);
            let named: Vec<Pubkey> = instruction.accounts.iter().map(|m| m.pubkey).collect();
            assert_eq!(named, vec![token_account, mint, user, user]);
        }
        other => panic!("{:?}", other),
    }
    assert_eq!(
        VendingMachineBufferHeader::try_from_slice(&transition.data),
        Ok(VendingMachineBufferHeader {
            bump_seed: bump,
            price: 42,
            vending_machine_mint: mint,
            echo_data: b"hel".to_vec(),
        })
    );
}

#[test]
fn a_failed_call_leaves_the_buffer() {
    let mut buffer = account(key(1), false, true, vec![1, 2, 3]);
    let transition = Transition { call: None, data: vec![9, 9, 9] };
    assert_eq!(Processor::commit(&mut buffer, transition.clone(), Err("no")), Err("no"));
    assert_eq!(buffer, account(key(1), false, true, vec![1, 2, 3]));
    assert_eq!(Processor::commit::<u8>(&mut buffer, transition, Ok(())), Ok(()));
    assert_eq!(buffer, account(key(1), false, true, vec![9, 9, 9]));
}

#[test]
fn an_instruction_is_processed_as_its_kind_says() {
    let program_id = key(9);
    let authority = key(2);
    let (pda, _) = found(b"authority", &authority, 1, &program_id);
    let accounts = vec![account(pda, false, true, vec![]), account(authority, true, true, vec![])];
    let bytes = EchoInstruction::InitializeAuthorizedEcho { buffer_seed: 1, buffer_size: 24 }
        .try_to_vec()
        .unwrap();
    assert_eq!(
        Processor::process_instruction(&program_id, &accounts, &bytes),
        Processor::process_initialize_authorized_echo(&program_id, &accounts, 1, 24)
    );
    let bytes = EchoInstruction::InitializeVendingMachineEcho { price: 1, buffer_size: 24 }
        .try_to_vec()
        .unwrap();
    assert_eq!(
        Processor::process_instruction(&program_id, &accounts, &bytes),
        Err(ProgramError::NotEnoughAccountKeys)
    );
    let bytes = EchoInstruction::VendingMachineEcho { data: vec![1] }.try_to_vec().unwrap();
    assert_eq!(
        Processor::process_instruction(&program_id, &accounts, &bytes),
        Err(ProgramError::NotEnoughAccountKeys)
    );
    let bytes = EchoInstruction::AuthorizedEcho { data: vec![1] }.try_to_vec().unwrap();
    assert_eq!(
        Processor::process_instruction(&program_id, &accounts, &bytes),
        Err(ProgramError::BorshIoError)
    );
    let bytes = EchoInstruction::Echo { data: vec![1] }.try_to_vec().unwrap();
    assert_eq!(
        Processor::process_instruction(&program_id, &accounts, &bytes),
        Err(ProgramError::Custom(1))
    );
}

#[test]
fn a_buffer_is_created_at_the_address_found_only() {
    let (program_id, buffer, authority) = (key(9), key(1), key(2));
    let create = |found, size| {
        Processor::create_authorized_buffer(found, &program_id, &buffer, &authority, 3, size)
    };
    assert_eq!(create(None, 20), Err(ProgramError::InvalidSeeds));
    assert_eq!(create(Some((key(7), 255)), 20), Err(custom(EchoError::InvalidAuthorizedBuffer)));
    assert_eq!(create(Some((key(7), 255)), 0), Err(custom(EchoError::InvalidAuthorizedBuffer)));
    assert_eq!(create(Some((buffer, 255)), 12), Err(ProgramError::InvalidArgument));
    let transition = create(Some((buffer, 250)), 15).unwrap();
    assert_eq!(transition.data, vec![250, 3, 0, 0, 0, 0, 0, 0, 0, 2, 0, 0, 0, 0, 0]);
    assert_eq!(
        transition.call,
        Some(Invocation::CreateAccount(CreateAccount {
            payer: authority,
            new_account: buffer,
            space: 15,
            owner: program_id,
            signer_seeds: vec![
                b"authority".to_vec(),
                vec![2; 32],
                vec![3, 0, 0, 0, 0, 0, 0, 0],
                vec![250],
            ],
        }))
    );

    let (mint, payer) = (key(4), key(5));
    let create = |found, size| {
        Processor::create_vending_machine_buffer(found, &program_id, &buffer, &mint, &payer, 42, size)
    };
    assert_eq!(create(None, 50), Err(ProgramError::InvalidSeeds));
    assert_eq!(create(Some((key(7), 255)), 50), Err(custom(EchoError::InvalidAuthorizedBuffer)));
    assert_eq!(create(Some((buffer, 255)), 44), Err(ProgramError::InvalidArgument));
    let transition = create(Some((buffer, 9)), 46).unwrap();
    let mut expected = vec![9, 42, 0, 0, 0, 0, 0, 0, 0];
    expected.extend_from_slice(&[4; 32]);
    expected.extend_from_slice(&[1, 0, 0, 0, 0]);
    assert_eq!(transition.data, expected);
    assert_eq!(
        transition.call,
        Some(Invocation::CreateAccount(CreateAccount {
            payer,
            new_account: buffer,
            space: 46,
            owner: program_id,
            signer_seeds: vec![
                b"vending_machine".to_vec(),
                vec![4; 32],
                vec![42, 0, 0, 0, 0, 0, 0, 0],
                vec![9],
            ],
        }))
    );
}

#[test]
fn a_buffer_is_written_at_the_address_derived_only() {
    let buffer = key(1);
    let header = AuthorizedBufferHeader { bump_seed: 7, buffer_seed: 1, echo_data: vec![9, 8, 7] };
    let write = |derived| Processor::write_authorized_buffer(derived, &buffer, header.clone(), b"hi");
    assert_eq!(write(Err(PubkeyError::InvalidSeeds)), Err(ProgramError::InvalidSeeds));
    assert_eq!(
        write(Err(PubkeyError::MaxSeedLengthExceeded)),
        Err(ProgramError::MaxSeedLengthExceeded)
    );
    assert_eq!(write(Err(PubkeyError::IllegalOwner)), Err(ProgramError::IllegalOwner));
    assert_eq!(write(Ok(key(2))), Err(custom(EchoError::InvalidAuthority)));
    assert_eq!(
        write(Ok(buffer)),
        Ok(Transition {
            call: None,
            data: vec![7, 1, 0, 0, 0, 0, 0, 0, 0, 3, 0, 0, 0, b'h', b'i', 0],
        })
    );

    let (user, token_account, mint) = (key(2), key(3), key(4));
    let header = VendingMachineBufferHeader {
        bump_seed: 7,
        price: 5,
        vending_machine_mint: mint,
        echo_data: vec![9],
    };
    let write = |derived| {
        Processor::write_vending_machine_buffer(
            derived,
            &buffer,
            &user,
            &token_account,
            &mint,
            header.clone(),
            b"hi",
        )
    };
    assert_eq!(write(Err(PubkeyError::InvalidSeeds)), Err(ProgramError::InvalidSeeds));
    assert_eq!(write(Ok(key(2))), Err(custom(EchoError::InvalidAuthority)));
    let transition = write(Ok(buffer)).unwrap();
    let mut expected = vec![7, 5, 0, 0, 0, 0, 0, 0, 0];
    expected.extend_from_slice(&[4; 32]);
    expected.extend_from_slice(&[1, 0, 0, 0, b'h']);
    assert_eq!(transition.data, expected);
    match transition.call {
        Some(Invocation::Burn(instruction)) => {
            assert_eq!(instruction.data, vec![8, 5, 0, 0, 0, 0, 0, 0, 0]);
            assert_eq!(instruction.accounts[0].pubkey, token_account);
            assert_eq!(instruction.accounts[1].pubkey, mint);
            assert_eq!(instruction.accounts[3].pubkey, user);
            assert!(instruction.accounts[3].is_signer);
        }
        other => panic!("{:?}", other),
    }
}

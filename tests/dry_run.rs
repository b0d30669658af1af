use base64::Engine;
use dry_run::{
    Base64, CommandResult, DryRunEffect, DryRunMutation, DryRunResult, DryRunReturn, Error,
    ExecutionOutcome, MoveType, MutatedReferenceOutput, ReturnValueOutput, TransactionArgument,
    TransactionBlock,
};

fn ty(repr: &str) -> MoveType {
    MoveType { repr: repr.to_string() }
}

fn resolved(repr: &str) -> Result<MoveType, String> {
    Ok(ty(repr))
}

fn unresolved(msg: &str) -> Result<MoveType, String> {
    Err(msg.to_string())
}

fn mutation(argument: TransactionArgument, bcs: &[u8], type_: Result<MoveType, String>) -> MutatedReferenceOutput {
    MutatedReferenceOutput { argument, bcs: bcs.to_vec(), type_ }
}

fn ret(bcs: &[u8], type_: Result<MoveType, String>) -> ReturnValueOutput {
    ReturnValueOutput { bcs: bcs.to_vec(), type_ }
}

fn command(muts: Vec<MutatedReferenceOutput>, rets: Vec<ReturnValueOutput>) -> CommandResult {
    CommandResult { mutable_reference_outputs: muts, return_values: rets }
}

fn effects_artifact(values: &[u64]) -> Vec<u8> {
    bcs::to_bytes(&values.to_vec()).unwrap()
}

fn tx_artifact(text: &str) -> Vec<u8> {
    bcs::to_bytes(&text.to_string()).unwrap()
}

fn decode_effects(bytes: &[u8]) -> Result<Vec<u64>, String> {
    bcs::from_bytes::<Vec<u64>>(bytes).map_err(|e| e.to_string())
}

fn decode_tx(bytes: &[u8]) -> Result<String, String> {
    bcs::from_bytes::<String>(bytes).map_err(|e| e.to_string())
}

fn outcome(
    error: Option<&str>,
    results: Option<Vec<CommandResult>>,
    effects: &[u8],
    tx: &[u8],
) -> ExecutionOutcome<Vec<u64>, String, u32> {
    ExecutionOutcome {
        error: error.map(|e| e.to_string()),
        results,
        events: vec![7, 8],
        effects: decode_effects(effects),
        transaction_data: decode_tx(tx),
    }
}

fn good_artifacts() -> (Vec<u8>, Vec<u8>) {
    (effects_artifact(&[1, 2, 3]), tx_artifact("tx"))
}

#[test]
fn effect_list_has_one_entry_per_command_in_order() {
    let (fx, tx) = good_artifacts();
    let commands = vec![
        command(vec![], vec![ret(&[1], resolved("u8"))]),
        command(vec![], vec![ret(&[2, 0], resolved("u16"))]),
        command(vec![], vec![]),
    ];
    let r = DryRunResult::try_from(outcome(None, Some(commands), &fx, &tx)).unwrap();
    let effects = r.results.unwrap();
    assert_eq!(effects.len(), 3);
    assert_eq!(
        effects[0].return_values,
        Some(vec![DryRunReturn { type_: ty("u8"), bcs: Base64(vec![1]) }])
    );
    assert_eq!(
        effects[1].return_values,
        Some(vec![DryRunReturn { type_: ty("u16"), bcs: Base64(vec![2, 0]) }])
    );
    assert_eq!(effects[2], DryRunEffect { mutated_references: Some(vec![]), return_values: Some(vec![]) });
}

#[test]
fn mutated_references_keep_order_and_bytes() {
    let c = command(
        vec![
            mutation(TransactionArgument::Input(2), &[9, 9, 9], resolved("0x2::coin::Coin<0x2::sui::SUI>")),
            mutation(TransactionArgument::GasCoin, &[], resolved("u64")),
            mutation(TransactionArgument::NestedResult(1, 4), &[0, 1], resolved("bool")),
        ],
        vec![],
    );
    let e = DryRunEffect::try_from(c).unwrap();
    assert_eq!(
        e.mutated_references,
        Some(vec![
            DryRunMutation {
                input: TransactionArgument::Input(2),
                type_: ty("0x2::coin::Coin<0x2::sui::SUI>"),
                bcs: Base64(vec![9, 9, 9]),
            },
            DryRunMutation { input: TransactionArgument::GasCoin, type_: ty("u64"), bcs: Base64(vec![]) },
            DryRunMutation {
                input: TransactionArgument::NestedResult(1, 4),
                type_: ty("bool"),
                bcs: Base64(vec![0, 1]),
            },
        ])
    );
    assert_eq!(e.return_values, Some(vec![]));
}

#[test]
fn return_values_keep_order_and_bytes() {
    let c = command(
        vec![mutation(TransactionArgument::Result(0), &[5], resolved("u8"))],
        vec![ret(&[1, 2], resolved("u16")), ret(&[3], resolved("u8"))],
    );
    let e = DryRunEffect::try_from(c).unwrap();
    assert_eq!(
        e.return_values,
        Some(vec![
            DryRunReturn { type_: ty("u16"), bcs: Base64(vec![1, 2]) },
            DryRunReturn { type_: ty("u8"), bcs: Base64(vec![3]) },
        ])
    );
    assert_eq!(e.mutated_references.unwrap().len(), 1);
}

#[test]
fn command_without_outputs_gives_present_empty_lists() {
    let e = DryRunEffect::try_from(command(vec![], vec![])).unwrap();
    assert_eq!(e.mutated_references, Some(vec![]));
    assert_eq!(e.return_values, Some(vec![]));
}

#[test]
fn first_unresolved_tag_of_a_command_is_reported() {
    let c = command(
        vec![
            mutation(TransactionArgument::Input(0), &[1], resolved("u8")),
            mutation(TransactionArgument::Input(1), &[2], unresolved("no such module")),
        ],
        vec![ret(&[3], unresolved("bad return tag"))],
    );
    assert_eq!(DryRunEffect::try_from(c), Err(Error::TypeResolution("no such module".to_string())));
    let c = command(vec![], vec![ret(&[3], resolved("u8")), ret(&[4], unresolved("bad return tag"))]);
    assert_eq!(DryRunEffect::try_from(c), Err(Error::TypeResolution("bad return tag".to_string())));
}

#[test]
fn absent_results_fail_with_structural_error() {
    let (fx, tx) = good_artifacts();
    let r = DryRunResult::try_from(outcome(None, None, &fx, &tx));
    assert_eq!(r, Err(Error::NoExecutionResults));
}

#[test]
fn empty_results_are_not_absent() {
    let (fx, tx) = good_artifacts();
    let r = DryRunResult::try_from(outcome(None, Some(vec![]), &fx, &tx)).unwrap();
    assert_eq!(r.results, Some(vec![]));
}

#[test]
fn one_unresolvable_tag_fails_whole_assembly() {
    let (fx, tx) = good_artifacts();
    let commands = vec![
        command(vec![mutation(TransactionArgument::Input(0), &[1], resolved("u8"))], vec![]),
        command(vec![], vec![ret(&[2], unresolved("unknown type 0x9::m::T"))]),
    ];
    let r = DryRunResult::try_from(outcome(None, Some(commands), &fx, &tx));
    assert_eq!(r, Err(Error::TypeResolution("unknown type 0x9::m::T".to_string())));
}

#[test]
fn command_failure_comes_before_artifact_failures() {
    let commands = vec![command(vec![], vec![ret(&[2], unresolved("bad"))])];
    let r = DryRunResult::try_from(outcome(None, Some(commands), &[0xff], &[0xff]));
    assert_eq!(r, Err(Error::TypeResolution("bad".to_string())));
}

#[test]
fn corrupted_effects_fail_naming_effects() {
    let (fx, tx) = good_artifacts();
    let truncated = &fx[..fx.len() - 3];
    let r = DryRunResult::try_from(outcome(None, Some(vec![]), truncated, &tx));
    match r {
        Err(Error::EffectsDecode(msg)) => assert!(!msg.is_empty()),
        other => panic!("expected an effects error, got {:?}", other),
    }
}

#[test]
fn corrupted_transaction_data_fails_naming_transaction_data() {
    let (fx, tx) = good_artifacts();
    let truncated = &tx[..tx.len() - 1];
    let r = DryRunResult::try_from(outcome(None, Some(vec![]), &fx, truncated));
    match r {
        Err(Error::TransactionDataDecode(msg)) => assert!(!msg.is_empty()),
        other => panic!("expected a transaction data error, got {:?}", other),
    }
}

#[test]
fn corrupted_effects_are_reported_before_transaction_data() {
    let r = DryRunResult::try_from(outcome(None, Some(vec![]), &[0xff], &[0xff]));
    assert!(matches!(r, Err(Error::EffectsDecode(_))));
}

#[test]
fn application_error_passes_through_with_decoded_transaction() {
    let (fx, tx) = good_artifacts();
    let r = DryRunResult::try_from(outcome(Some("MoveAbort(0x2::coin, 3)"), Some(vec![]), &fx, &tx)).unwrap();
    assert_eq!(r.error, Some("MoveAbort(0x2::coin, 3)".to_string()));
    assert_eq!(r.results, Some(vec![]));
    assert_eq!(
        r.transaction,
        Some(TransactionBlock { tx_data: "tx".to_string(), effects: vec![1, 2, 3], events: vec![7, 8] })
    );
}

#[test]
fn application_error_does_not_hide_a_bad_artifact() {
    let (fx, _) = good_artifacts();
    let r = DryRunResult::try_from(outcome(Some("MoveAbort"), Some(vec![]), &fx, &[]));
    assert!(matches!(r, Err(Error::TransactionDataDecode(_))));
}

#[test]
fn byte_payload_round_trips_through_base64() {
    let payload: Vec<u8> = vec![0, 1, 2, 250, 251, 252, 253, 254, 255, 42];
    let (fx, tx) = good_artifacts();
    let commands = vec![command(
        vec![mutation(TransactionArgument::Input(0), &payload, resolved("vector<u8>"))],
        vec![],
    )];
    let r = DryRunResult::try_from(outcome(None, Some(commands), &fx, &tx)).unwrap();
    let effects = r.results.unwrap();
    let m = &effects[0].mutated_references.as_ref().unwrap()[0];
    let text = base64::engine::general_purpose::STANDARD.encode(&m.bcs.0);
    assert_eq!(text, "AAEC+vv8/f7/Kg==");
    let back = base64::engine::general_purpose::STANDARD.decode(text).unwrap();
    assert_eq!(back, payload);
}

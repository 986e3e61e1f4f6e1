use task_platform::platform::{Context, Platform, PlatformError, STORAGE_COST};
use task_platform::rating::calculate_rating;
use task_platform::task::Task;

fn get_context(caller: &str, deposit: u128) -> Context {
    Context {
        caller: caller.to_string(),
        admin: "alice_near".to_string(),
        now: 0,
        deposit,
    }
}

fn sam() -> Context {
    get_context("sam_near", 10_100_000_000_000_000_000_000)
}

fn add(contract: &mut Platform, ctx: &Context, task_type: &str) -> u64 {
    contract
        .add_task(
            ctx,
            "title".to_string(),
            "description".to_string(),
            task_type.to_string(),
            10000000000000000000000,
        )
        .unwrap()
}

#[test]
fn add_then_get_task() {
    let ctx = sam();
    let mut contract = Platform::default();
    let add = contract.add_task(
        &ctx,
        "title".to_string(),
        "description".to_string(),
        "type".to_string(),
        10000000000000000000000,
    );
    let tasks = contract.get_tasks();
    assert!(add.is_ok());
    assert_eq!(1, tasks.len());
    let task = contract.get_task(0).unwrap();
    assert_eq!("title".to_string(), task.title);
    assert_eq!("description".to_string(), task.description);
    assert_eq!("type".to_string(), task.task_type);
    assert_eq!("sam_near".to_string(), task.author);
    let fees = contract.total_fees();
    assert_eq!(fees, 1_00_000_000_000_000_000_000);
}

#[test]
fn title_is_empty() {
    let ctx = sam();
    let mut contract = Platform::default();
    let r = contract.add_task(
        &ctx,
        "".to_string(),
        "description".to_string(),
        "type".to_string(),
        10000000000000000000000,
    );
    assert_eq!(r, Err(PlatformError::InvalidInput));
    assert_eq!(0, contract.get_tasks().len());
}

#[test]
fn description_is_empty() {
    let ctx = sam();
    let mut contract = Platform::default();
    let r = contract.add_task(
        &ctx,
        "title".to_string(),
        "".to_string(),
        "type".to_string(),
        10000000000000000000000,
    );
    assert_eq!(r, Err(PlatformError::InvalidInput));
    assert_eq!(0, contract.get_tasks().len());
}

#[test]
fn get_all_tasks() {
    let ctx = sam();
    let mut contract = Platform::default();
    contract
        .add_task(
            &ctx,
            "title1".to_string(),
            "description1".to_string(),
            "SelectedByAuthor".to_string(),
            10000000000000000000000,
        )
        .unwrap();
    contract
        .add_task(
            &ctx,
            "title2".to_string(),
            "description2".to_string(),
            "FCFS".to_string(),
            10000000000000000000000,
        )
        .unwrap();
    let tasks = contract.get_tasks();
    assert_eq!(2, tasks.len());
    assert_eq!(0, tasks[0].0);
    assert_eq!(1, tasks[1].0);
    assert_eq!("title2".to_string(), tasks[1].1.title);
}

#[test]
fn assign_task() {
    let ctx = sam();
    let mut contract = Platform::default();
    add(&mut contract, &ctx, "SelectedByAuthor");
    contract.apply_for_task(&ctx, 0).unwrap();
    let assign = contract.assign_task(&ctx, 0, "sam_near".to_string());
    assert!(assign.is_ok());
    let task = contract.get_task(0).unwrap();
    assert_eq!("sam_near".to_string(), task.assignee.unwrap());
}

#[test]
fn unassign_task() {
    let ctx = sam();
    let mut contract = Platform::default();
    add(&mut contract, &ctx, "SelectedByAuthor");
    contract.apply_for_task(&ctx, 0).unwrap();
    contract.assign_task(&ctx, 0, "sam_near".to_string()).unwrap();
    let unassign = contract.unassign_task(&ctx, 0);
    assert!(unassign.is_ok());
    let task = contract.get_task(0).unwrap();
    assert!(task.assignee.is_none());
}

#[test]
fn apply_for_fcfs_task() {
    let ctx = sam();
    let mut contract = Platform::default();
    add(&mut contract, &ctx, "FCFS");
    let apply = contract.apply_for_task(&ctx, 0);
    assert!(apply.is_ok());
    let task = contract.get_task(0).unwrap();
    assert_eq!("sam_near".to_string(), task.assignee.unwrap());
}

#[test]
fn apply_for_selected_by_author_task() {
    let ctx = sam();
    let mut contract = Platform::default();
    add(&mut contract, &ctx, "SelectedByAuthor");
    let task = contract.get_task(0).unwrap();
    assert_eq!(task.candidates.len(), 0);
    let apply = contract.apply_for_task(&ctx, 0);
    assert!(apply.is_ok());
    let task = contract.get_task(0).unwrap();
    assert!(task.assignee.is_none());
    assert_eq!(task.candidates.len(), 1);
}

#[test]
fn submit_result() {
    let ctx = sam();
    let mut contract = Platform::default();
    add(&mut contract, &ctx, "FCFS");
    contract.apply_for_task(&ctx, 0).unwrap();
    let submit = contract.submit_result(&ctx, 0, "result".to_string());
    assert!(submit.is_ok());
    let task = contract.get_task(0).unwrap();
    assert_eq!("result".to_string(), task.result.unwrap());
}

#[test]
fn complete_task() {
    let ctx = sam();
    let mut contract = Platform::default();
    add(&mut contract, &ctx, "FCFS");
    contract.apply_for_task(&ctx, 0).unwrap();
    contract.submit_result(&ctx, 0, "result".to_string()).unwrap();
    let complete = contract.complete_task(&ctx, 0, 5);
    assert!(complete.is_ok());
    let task = contract.get_task(0).unwrap();
    assert!(task.completed_at.is_some());
    assert_eq!(5, contract.get_rating(task.assignee.unwrap()));
}

#[test]
fn set_platform_fee_percentage() {
    let ctx = get_context("alice_near", 10_100_000_000_000_000_000_000);
    let mut contract = Platform::default();
    let update = contract.set_platform_fee_percentage(&ctx, 3);
    assert!(update.is_ok());
    assert_eq!(3, contract.get_platform_fee_percentage());
}

#[test]
fn get_platform_fee_percentage() {
    let contract = Platform::default();
    let get = contract.get_platform_fee_percentage();
    assert_eq!(1, get);
}

#[test]
fn cannot_change_platform_fee_percentage_if_not_owner() {
    let ctx = sam();
    let mut contract = Platform::default();
    let r = contract.set_platform_fee_percentage(&ctx, 30);
    assert_eq!(r, Err(PlatformError::Unauthorized));
    assert_eq!(1, contract.get_platform_fee_percentage());
}

#[test]
fn withdraw_fees() {
    let ctx = get_context("alice_near", 1_010_000_000_000_000_000_000_000);
    let mut contract = Platform::default();
    contract
        .add_task(
            &ctx,
            "title".to_string(),
            "description".to_string(),
            "FCFS".to_string(),
            1000000000000000000000000,
        )
        .unwrap();
    let withdraw = contract.withdraw_fees(&ctx, "test_near".to_string());
    assert!(withdraw.is_ok());
    assert_eq!(1_000_000_000_000_000_000_000, contract.total_fees());
    let transfer = withdraw.ok().unwrap();
    assert_eq!("test_near".to_string(), transfer.receiver);
    assert_eq!(9_000_000_000_000_000_000_000, transfer.amount);
}

#[test]
fn cannot_withdraw_fees_if_not_owner() {
    let ctx = sam();
    let mut contract = Platform::default();
    add(&mut contract, &ctx, "FCFS");
    let r = contract.withdraw_fees(&ctx, "test_near".to_string());
    assert!(matches!(r, Err(PlatformError::Unauthorized)));
}

#[test]
fn get_rating_if_unrated() {
    let contract = Platform::default();
    let rating = contract.get_rating("test.near".to_string());
    assert_eq!(0, rating);
}

#[test]
fn get_rating_if_rated() {
    let ctx = sam();
    let mut contract = Platform::default();
    add(&mut contract, &ctx, "FCFS");
    contract.apply_for_task(&ctx, 0).unwrap();
    contract.submit_result(&ctx, 0, "result".to_string()).unwrap();
    contract.complete_task(&ctx, 0, 5).unwrap();
    let rating = contract.get_rating("sam_near".to_string());
    assert_eq!(5, rating);
}

#[test]
fn full_lifecycle_pays_the_worker() {
    let author = get_context("author_near", 20_200_000_000_000_000_000_000);
    let worker = get_context("worker_near", 0);
    let mut contract = Platform::default();
    let id = contract
        .add_task(
            &author,
            "title".to_string(),
            "description".to_string(),
            "FCFS".to_string(),
            20_000_000_000_000_000_000_000,
        )
        .unwrap();
    assert_eq!(200_000_000_000_000_000_000, contract.total_fees());
    contract.apply_for_task(&worker, id).unwrap();
    assert_eq!(Some("worker_near".to_string()), contract.get_task(id).unwrap().assignee);
    contract.submit_result(&worker, id, "done".to_string()).unwrap();
    assert_eq!(Some("done".to_string()), contract.get_task(id).unwrap().result);
    let done = Context { now: 77, ..author };
    let transfer = contract.complete_task(&done, id, 5).ok().unwrap();
    assert_eq!(Some(77), contract.get_task(id).unwrap().completed_at);
    assert_eq!(5, contract.get_rating("worker_near".to_string()));
    assert_eq!("worker_near".to_string(), transfer.receiver);
    assert_eq!(20_000_000_000_000_000_000_000, transfer.amount);
}

#[test]
fn reward_at_storage_cost_is_refused() {
    let ctx = get_context("sam_near", STORAGE_COST + STORAGE_COST / 100);
    let mut contract = Platform::default();
    let r = contract.add_task(
        &ctx,
        "title".to_string(),
        "description".to_string(),
        "FCFS".to_string(),
        STORAGE_COST,
    );
    assert_eq!(r, Err(PlatformError::InvalidInput));
}

#[test]
fn wrong_deposit_is_refused() {
    let ctx = get_context("sam_near", 10_000_000_000_000_000_000_000);
    let mut contract = Platform::default();
    let r = contract.add_task(
        &ctx,
        "title".to_string(),
        "description".to_string(),
        "FCFS".to_string(),
        10_000_000_000_000_000_000_000,
    );
    assert_eq!(r, Err(PlatformError::PaymentMismatch));
    assert_eq!(0, contract.total_fees());
    assert!(contract.get_task(0).is_err());
}

#[test]
fn fee_is_taken_per_full_hundred() {
    let admin = get_context("alice_near", 0);
    let mut contract = Platform::default();
    contract.set_platform_fee_percentage(&admin, 7).unwrap();
    let reward: u128 = 1_000_000_000_000_000_000_099;
    let ctx = get_context("sam_near", reward + 70_000_000_000_000_000_000);
    let id = contract
        .add_task(
            &ctx,
            "title".to_string(),
            "description".to_string(),
            "FCFS".to_string(),
            reward,
        )
        .unwrap();
    assert_eq!(0, id);
    assert_eq!(70_000_000_000_000_000_000, contract.total_fees());
}

#[test]
fn second_fcfs_application_is_refused() {
    let ctx = sam();
    let other = get_context("bob_near", 0);
    let mut contract = Platform::default();
    add(&mut contract, &ctx, "FCFS");
    contract.apply_for_task(&ctx, 0).unwrap();
    assert_eq!(contract.apply_for_task(&other, 0), Err(PlatformError::InvalidState));
    assert_eq!(Some("sam_near".to_string()), contract.get_task(0).unwrap().assignee);
}

#[test]
fn unknown_task_type_cannot_be_applied_for() {
    let ctx = sam();
    let mut contract = Platform::default();
    add(&mut contract, &ctx, "type");
    assert_eq!(contract.apply_for_task(&ctx, 0), Err(PlatformError::InvalidInput));
    assert_eq!(contract.apply_for_task(&ctx, 9), Err(PlatformError::NotFound));
}

#[test]
fn assign_needs_author_and_candidate() {
    let ctx = sam();
    let bob = get_context("bob_near", 0);
    let mut contract = Platform::default();
    add(&mut contract, &ctx, "SelectedByAuthor");
    contract.apply_for_task(&bob, 0).unwrap();
    contract.apply_for_task(&bob, 0).unwrap();
    assert_eq!(2, contract.get_task(0).unwrap().candidates.len());
    assert_eq!(
        contract.assign_task(&bob, 0, "bob_near".to_string()),
        Err(PlatformError::Unauthorized)
    );
    assert_eq!(
        contract.assign_task(&ctx, 0, "carol_near".to_string()),
        Err(PlatformError::InvalidInput)
    );
    contract.assign_task(&ctx, 0, "bob_near".to_string()).unwrap();
    assert_eq!(
        contract.assign_task(&ctx, 0, "bob_near".to_string()),
        Err(PlatformError::InvalidState)
    );
    assert_eq!(2, contract.get_task(0).unwrap().candidates.len());
}

#[test]
fn unassign_keeps_result_and_needs_assignee() {
    let ctx = sam();
    let mut contract = Platform::default();
    add(&mut contract, &ctx, "FCFS");
    assert_eq!(contract.unassign_task(&ctx, 0), Err(PlatformError::InvalidState));
    contract.apply_for_task(&ctx, 0).unwrap();
    contract.submit_result(&ctx, 0, "result".to_string()).unwrap();
    contract.unassign_task(&ctx, 0).unwrap();
    let task = contract.get_task(0).unwrap();
    assert!(task.assignee.is_none());
    assert_eq!(Some("result".to_string()), task.result);
    assert_eq!(contract.complete_task(&ctx, 0, 3).err(), Some(PlatformError::InvalidState));
}

#[test]
fn submit_result_refusals() {
    let ctx = sam();
    let bob = get_context("bob_near", 0);
    let mut contract = Platform::default();
    add(&mut contract, &ctx, "FCFS");
    contract.apply_for_task(&ctx, 0).unwrap();
    assert_eq!(
        contract.submit_result(&bob, 0, "result".to_string()),
        Err(PlatformError::Unauthorized)
    );
    assert_eq!(contract.submit_result(&ctx, 0, "".to_string()), Err(PlatformError::InvalidInput));
    contract.submit_result(&ctx, 0, "result".to_string()).unwrap();
    assert_eq!(
        contract.submit_result(&ctx, 0, "again".to_string()),
        Err(PlatformError::InvalidState)
    );
}

#[test]
fn complete_twice_is_refused_and_rates_once() {
    let author = sam();
    let worker = get_context("bob_near", 0);
    let mut contract = Platform::default();
    add(&mut contract, &author, "FCFS");
    contract.apply_for_task(&worker, 0).unwrap();
    assert_eq!(contract.complete_task(&author, 0, 4).err(), Some(PlatformError::InvalidState));
    contract.submit_result(&worker, 0, "result".to_string()).unwrap();
    assert_eq!(contract.complete_task(&worker, 0, 4).err(), Some(PlatformError::Unauthorized));
    assert_eq!(contract.complete_task(&author, 0, 6).err(), Some(PlatformError::InvalidInput));
    contract.complete_task(&author, 0, 4).ok().unwrap();
    assert_eq!(contract.complete_task(&author, 0, 2).err(), Some(PlatformError::InvalidState));
    assert_eq!(4, contract.get_rating("bob_near".to_string()));
}

#[test]
fn second_rating_is_averaged_down() {
    let author = sam();
    let worker = get_context("bob_near", 0);
    let mut contract = Platform::default();
    for rating in [4u8, 1u8] {
        let id = add(&mut contract, &author, "FCFS");
        contract.apply_for_task(&worker, id).unwrap();
        contract.submit_result(&worker, id, "result".to_string()).unwrap();
        contract.complete_task(&author, id, rating).ok().unwrap();
    }
    assert_eq!(2, contract.get_rating("bob_near".to_string()));
    assert_eq!(0, contract.get_rating("sam_near".to_string()));
}

#[test]
fn calculate_rating_values() {
    assert_eq!(5, calculate_rating(0, 5));
    assert_eq!(0, calculate_rating(0, 0));
    assert_eq!(2, calculate_rating(4, 1));
    assert_eq!(2, calculate_rating(5, 0));
    assert_eq!(255, calculate_rating(255, 255));
}

#[test]
fn delete_assigned_task_is_refused() {
    let ctx = sam();
    let bob = get_context("bob_near", 0);
    let mut contract = Platform::default();
    add(&mut contract, &ctx, "FCFS");
    contract.apply_for_task(&bob, 0).unwrap();
    assert_eq!(contract.delete_task(&ctx, 0).err(), Some(PlatformError::InvalidState));
    assert!(contract.delete_task(&bob, 0).is_err());
    assert!(contract.get_task(0).is_ok());
}

#[test]
fn delete_refunds_author_and_id_is_not_reused() {
    let ctx = sam();
    let bob = get_context("bob_near", 0);
    let mut contract = Platform::default();
    add(&mut contract, &ctx, "FCFS");
    assert_eq!(contract.delete_task(&bob, 0).err(), Some(PlatformError::Unauthorized));
    let refund = contract.delete_task(&ctx, 0).ok().unwrap();
    assert_eq!("sam_near".to_string(), refund.receiver);
    assert_eq!(10_000_000_000_000_000_000_000, refund.amount);
    assert_eq!(contract.get_task(0).err(), Some(PlatformError::NotFound));
    assert_eq!(contract.delete_task(&ctx, 0).err(), Some(PlatformError::NotFound));
    assert_eq!(1, add(&mut contract, &ctx, "FCFS"));
    assert_eq!(1, contract.get_tasks().len());
}

#[test]
fn fee_percentage_must_be_below_hundred() {
    let admin = get_context("alice_near", 0);
    let mut contract = Platform::default();
    assert_eq!(
        contract.set_platform_fee_percentage(&admin, 100),
        Err(PlatformError::InvalidInput)
    );
    contract.set_platform_fee_percentage(&admin, 99).unwrap();
    assert_eq!(99, contract.get_platform_fee_percentage());
}

#[test]
fn withdraw_refusals() {
    let admin = get_context("alice_near", 10_100_000_000_000_000_000_000);
    let mut contract = Platform::default();
    add(&mut contract, &admin, "FCFS");
    assert_eq!(
        contract.withdraw_fees(&admin, "test_near".to_string()).err(),
        Some(PlatformError::InvalidState)
    );
    let big = get_context("sam_near", 1_010_000_000_000_000_000_000_000);
    contract
        .add_task(
            &big,
            "title".to_string(),
            "description".to_string(),
            "FCFS".to_string(),
            1_000_000_000_000_000_000_000_000,
        )
        .unwrap();
    assert_eq!(
        contract.withdraw_fees(&big, "sam_near".to_string()).err(),
        Some(PlatformError::Unauthorized)
    );
    assert_eq!(10_100_000_000_000_000_000_000, contract.total_fees());
}

#[test]
fn stored_parts_rebuild_the_ledger() {
    let ctx = sam();
    let bob = get_context("bob_near", 0);
    let mut contract = Platform::default();
    add(&mut contract, &ctx, "FCFS");
    add(&mut contract, &ctx, "FCFS");
    contract.delete_task(&ctx, 0).ok().unwrap();
    contract.apply_for_task(&bob, 1).unwrap();
    contract.submit_result(&bob, 1, "result".to_string()).unwrap();
    contract.complete_task(&ctx, 1, 3).ok().unwrap();
    let tasks: Vec<Task> = contract.get_tasks().into_iter().map(|(_, t)| t).collect();
    let fee = contract.get_platform_fee_percentage();
    let fees = contract.total_fees();
    let next = contract.next_task_id();
    assert_eq!(2, next);
    let ratings = contract.into_ratings();
    assert_eq!(vec![("bob_near".to_string(), 3u8)], ratings);
    let restored = Platform::restore(tasks, ratings, fee, fees, next).unwrap();
    assert_eq!(3, restored.get_rating("bob_near".to_string()));
    assert_eq!(Some(PlatformError::NotFound), restored.get_task(0).err());
    let task = restored.get_task(1).unwrap();
    assert_eq!(Some("bob_near".to_string()), task.assignee);
    assert_eq!(Some("result".to_string()), task.result);
    assert_eq!(10_000_000_000_000_000_000_000, task.reward);
    assert_eq!(200_000_000_000_000_000_000, restored.total_fees());
    assert_eq!(2, restored.next_task_id());
}

#[test]
fn inconsistent_parts_are_refused() {
    let ctx = sam();
    let mut contract = Platform::default();
    add(&mut contract, &ctx, "FCFS");
    let task = contract.get_task(0).unwrap();
    let twice = vec![task.copy(), task.copy()];
    assert!(Platform::restore(twice, Vec::new(), 1, 0, 1).is_none());
    assert!(Platform::restore(vec![task.copy()], Vec::new(), 1, 0, 0).is_none());
    assert!(Platform::restore(vec![task.copy()], Vec::new(), 100, 0, 1).is_none());
    assert!(Platform::restore(vec![task.copy()], Vec::new(), 99, 0, 1).is_some());
}

//! The acquire/present protocol: round-robin semaphores, the out-of-date
//! paths, and the loop's required responses.

use cranberries_backend::swapchain::{
    handle_acquire, AcquireAction, AcquireOutcome, PresentOutcome, Swapchain,
    SwapchainAcquireImageErr, SwapchainConfigError, SwapchainDesc,
};

fn swapchain() -> Swapchain {
    Swapchain::create(
        SwapchainDesc::default(),
        vec![100, 101, 102],
        vec![200, 201, 202],
        vec![300, 301, 302],
    )
    .unwrap()
}

#[test]
fn create_rejects_empty_image_chain() {
    let r = Swapchain::create(SwapchainDesc::default(), vec![], vec![], vec![]);
    assert!(matches!(r, Err(SwapchainConfigError::NoImages)));
}

#[test]
fn create_rejects_semaphore_count_mismatch() {
    let r = Swapchain::create(SwapchainDesc::default(), vec![1, 2], vec![10], vec![20, 21]);
    assert!(matches!(r, Err(SwapchainConfigError::SemaphoreCountMismatch)));
    let r = Swapchain::create(SwapchainDesc::default(), vec![1, 2], vec![10, 11], vec![20]);
    assert!(matches!(r, Err(SwapchainConfigError::SemaphoreCountMismatch)));
}

#[test]
fn acquire_hands_out_round_robin_semaphore_pairs() {
    let mut sc = swapchain();
    assert_eq!(sc.image_count(), 3);
    assert_eq!(sc.current_acquire_semaphore(), 200);

    let img = sc
        .acquire_next_image(AcquireOutcome::Acquired { index: 0, suboptimal: false })
        .unwrap();
    assert_eq!(img.image, 100);
    assert_eq!(img.image_index, 0);
    assert_eq!(img.acquire_semaphore, 200);
    assert_eq!(img.rendering_finished_semaphore, 300);

    assert_eq!(sc.current_acquire_semaphore(), 201);
    let img = sc
        .acquire_next_image(AcquireOutcome::Acquired { index: 1, suboptimal: true })
        .unwrap();
    assert_eq!(img.image, 101);
    assert_eq!(img.acquire_semaphore, 201);

    let img = sc
        .acquire_next_image(AcquireOutcome::Acquired { index: 2, suboptimal: false })
        .unwrap();
    assert_eq!(img.rendering_finished_semaphore, 302);

    // The round-robin wraps back to the first pair.
    assert_eq!(sc.current_acquire_semaphore(), 200);
}

#[test]
fn acquire_index_mismatch_is_fatal() {
    let mut sc = swapchain();
    let r = sc.acquire_next_image(AcquireOutcome::Acquired { index: 2, suboptimal: false });
    assert!(matches!(r, Err(SwapchainAcquireImageErr::ImageIndexMismatch)));
    // The cursor did not advance.
    assert_eq!(sc.current_acquire_semaphore(), 200);
}

#[test]
fn acquire_failure_is_fatal() {
    let mut sc = swapchain();
    let r = sc.acquire_next_image(AcquireOutcome::Failed);
    assert!(matches!(r, Err(SwapchainAcquireImageErr::AcquireFailed)));
}

#[test]
fn acquire_out_of_date_skips_frame_and_never_presents() {
    let mut sc = swapchain();
    let r = sc.acquire_next_image(AcquireOutcome::OutOfDate);
    assert!(matches!(r, Err(SwapchainAcquireImageErr::RecreateFramebuffer)));
    // The cursor did not advance: nothing was handed out.
    assert_eq!(sc.current_acquire_semaphore(), 200);
    // The loop's required response carries no image, so present_image
    // cannot even be called for this iteration.
    let action = handle_acquire(r);
    assert!(matches!(action, AcquireAction::SkipAndRecreate));
}

#[test]
fn handle_acquire_renders_on_success_and_aborts_on_fatal_errors() {
    let mut sc = swapchain();
    let r = sc.acquire_next_image(AcquireOutcome::Acquired { index: 0, suboptimal: false });
    match handle_acquire(r) {
        AcquireAction::Render(img) => assert_eq!(img.image_index, 0),
        _ => panic!("a successful acquire must render"),
    }
    let action = handle_acquire(Err(SwapchainAcquireImageErr::ImageIndexMismatch));
    assert!(matches!(
        action,
        AcquireAction::Abort(SwapchainAcquireImageErr::ImageIndexMismatch)
    ));
}

#[test]
fn present_out_of_date_or_suboptimal_is_not_an_error() {
    let mut sc = swapchain();
    for outcome in [PresentOutcome::Presented, PresentOutcome::OutOfDate, PresentOutcome::Suboptimal]
    {
        let idx = sc.next_semaphore;
        let img = sc
            .acquire_next_image(AcquireOutcome::Acquired { index: idx as u32, suboptimal: false })
            .unwrap();
        // Recreation is deferred to the next acquire; the caller sees Ok.
        assert!(sc.present_image(img, outcome).is_ok());
    }
}

#[test]
fn present_failure_is_reported() {
    let mut sc = swapchain();
    let img = sc
        .acquire_next_image(AcquireOutcome::Acquired { index: 0, suboptimal: false })
        .unwrap();
    assert!(sc.present_image(img, PresentOutcome::Failed).is_err());
}

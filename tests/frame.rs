use ng_render::frame::{FrameCall, FrameProtocol};

fn run(results: &[Result<bool, i32>]) -> (Vec<FrameCall>, Option<Result<bool, i32>>) {
    let mut p = FrameProtocol::new();
    let mut calls = Vec::new();
    let mut i = 0;
    while let Some(call) = p.next_call() {
        calls.push(call);
        p.call_returned(results[i]);
        i += 1;
    }
    (calls, p.result())
}

#[test]
fn frame_calls_in_protocol_order() {
    let (calls, result) = run(&[Ok(false); 9]);
    assert_eq!(
        calls,
        vec![
            FrameCall::WaitForFence,
            FrameCall::ResetFence,
            FrameCall::AcquireImage,
            FrameCall::ResetCommandBuffer,
            FrameCall::BeginCommandBuffer,
            FrameCall::RecordPasses,
            FrameCall::EndCommandBuffer,
            FrameCall::Submit,
            FrameCall::Present
        ]
    );
    assert_eq!(result, Some(Ok(true)));
}

#[test]
fn suboptimal_acquire_or_present_is_success() {
    let mut r = [Ok(false); 9];
    r[2] = Ok(true);
    assert_eq!(run(&r).1, Some(Ok(false)));
    let mut r = [Ok(false); 9];
    r[8] = Ok(true);
    assert_eq!(run(&r).1, Some(Ok(false)));
}

#[test]
fn first_failure_ends_the_frame() {
    let mut r = [Ok(false); 9];
    r[7] = Err(-4);
    let (calls, result) = run(&r);
    assert_eq!(calls.len(), 8);
    assert_eq!(calls[7], FrameCall::Submit);
    assert_eq!(result, Some(Err(-4)));
}

#[test]
fn unfinished_frame_has_no_result() {
    let mut p = FrameProtocol::new();
    assert_eq!(p.result(), None);
    p.call_returned(Ok(false));
    assert_eq!(p.next_call(), Some(FrameCall::ResetFence));
    assert_eq!(p.result(), None);
}

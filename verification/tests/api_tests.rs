use taskpanel::api::{
    delete_request_body, evaluate_get_tasks_response, evaluate_success_response, GetTasksResponse,
    SuccessResponse,
};
use taskpanel::error::Error;
use taskpanel::tasks::Task;

#[test]
fn non_ok_status_is_an_unsuccessful_request() {
    let r = evaluate_get_tasks_response(false, None);
    assert_eq!(r.unwrap_err(), Error::UnsuccessfulApiRequestError);
    let r = evaluate_success_response(false, Some(SuccessResponse { success: true }));
    assert_eq!(r.unwrap_err(), Error::UnsuccessfulApiRequestError);
}

#[test]
fn undecodable_body_is_a_decoding_error() {
    let r = evaluate_get_tasks_response(true, None);
    assert_eq!(r.unwrap_err(), Error::JsonDeserializationError);
    let r = evaluate_success_response(true, None);
    assert_eq!(r.unwrap_err(), Error::JsonDeserializationError);
}

#[test]
fn server_reported_failure_is_an_unsuccessful_request() {
    let body = GetTasksResponse { success: false, tasks: Vec::new() };
    let r = evaluate_get_tasks_response(true, Some(body));
    assert_eq!(r.unwrap_err(), Error::UnsuccessfulApiRequestError);
    let r = evaluate_success_response(true, Some(SuccessResponse { success: false }));
    assert_eq!(r.unwrap_err(), Error::UnsuccessfulApiRequestError);
}

#[test]
fn successful_response_hands_the_tasks_through() {
    let body = GetTasksResponse {
        success: true,
        tasks: vec![
            Task { user_task_id: 4, task: String::from("water the plants") },
            Task { user_task_id: 9, task: String::from("post the letter") },
        ],
    };
    let tasks = evaluate_get_tasks_response(true, Some(body)).unwrap();
    assert_eq!(tasks.len(), 2);
    assert_eq!(tasks[0].user_task_id, 4);
    assert_eq!(tasks[1].task, "post the letter");
    assert_eq!(evaluate_success_response(true, Some(SuccessResponse { success: true })), Ok(()));
}

#[test]
fn delete_body_is_the_json_id_list() {
    assert_eq!(delete_request_body(&vec![5]).unwrap(), "[5]");
    assert_eq!(delete_request_body(&vec![1, 2, 3]).unwrap(), "[1,2,3]");
    assert_eq!(delete_request_body(&vec![-7, 0]).unwrap(), "[-7,0]");
}

#[test]
fn delete_body_of_no_ids_is_the_empty_list() {
    assert_eq!(delete_request_body(&Vec::new()).unwrap(), "[]");
}

use beetle::api::jobs::{
    payload_verdict, queue_body, upload_verdict, ImageKind, QueueRefusal, MAX_FILE_SIZE,
};
use beetle::cli::migrate::{all_migrations, plan_migrations, MigrateOp, Migration, MigrationRun};
use beetle::redis::{QueueResponse, QueueValue};
use beetle::registrar::jobs::{RegistrarJobKind, RegistrarRenderKinds};
use beetle::registrar::rename::DeviceRenameRequest;
use beetle::registrar::work::{job_handler, job_outcome, job_pop, unworked_count, JobHandler, JobPop};
use beetle::rendering::renderer::{
    plan_render, sealed_render, within_resolution, Delivery, DISPLAY_HEIGHT, DISPLAY_WIDTH, MAX_HEIGHT, MAX_WIDTH,
};
use beetle::rendering::{LightingLayout, QueuedRender, QueuedRenderAuthority, RenderLayout, RenderLayoutContainer, RenderVariant};
use beetle::schema::jobs::{JobResult, SuccessfulJobResult};

fn text(value: &str) -> QueueValue {
    QueueValue::String(value.to_string())
}

#[test]
fn job_pops_follow_the_queue_response() {
    assert_eq!(job_pop(&QueueResponse::Item(QueueValue::Empty)), JobPop::Drained);
    assert_eq!(job_pop(&QueueResponse::Item(text("sealed"))), JobPop::Sealed("sealed".to_string()));
    assert_eq!(
        job_pop(&QueueResponse::Array(vec![text("ob:registrar-jobs"), text("blocked")])),
        JobPop::Sealed("blocked".to_string())
    );
    assert_eq!(job_pop(&QueueResponse::Array(vec![text("ob:registrar-jobs")])), JobPop::Skipped);
    assert_eq!(job_pop(&QueueResponse::Item(QueueValue::Integer(3))), JobPop::Skipped);
    assert_eq!(job_pop(&QueueResponse::Error), JobPop::Skipped);
    assert_eq!(unworked_count(&JobPop::Drained), None);
    assert_eq!(unworked_count(&JobPop::Skipped), Some(0));
    assert_eq!(unworked_count(&JobPop::Sealed("unreadable".to_string())), Some(0));
}

#[test]
fn jobs_go_to_their_handlers() {
    let rename = RegistrarJobKind::Rename(DeviceRenameRequest {
        device_id: "d".to_string(),
        new_name: "kitchen".to_string(),
    });
    assert_eq!(job_handler(&rename), JobHandler::DeviceRename);
    let schedule = RegistrarJobKind::RunDeviceSchedule { device_id: "d".to_string(), refresh_nonce: None };
    assert_eq!(job_handler(&schedule), JobHandler::ScheduleRun);
    let scannable = RegistrarJobKind::Renders(RegistrarRenderKinds::RegistrationScannable("d".to_string()));
    assert_eq!(job_handler(&scannable), JobHandler::RegistrationScannable);
    let current = RegistrarJobKind::Renders(RegistrarRenderKinds::CurrentDeviceState("d".to_string()));
    assert_eq!(job_handler(&current), JobHandler::CurrentStateRender);
    let toggle = RegistrarJobKind::ToggleDefaultSchedule {
        should_enable: true,
        device_id: "d".to_string(),
        user_id: "u".to_string(),
    };
    assert_eq!(job_handler(&toggle), JobHandler::ScheduleToggle);
}

#[test]
fn job_outcomes_record_and_count() {
    let terminal = JobResult::Success(SuccessfulJobResult::Terminal);
    assert_eq!(job_outcome(JobHandler::DeviceRename, Ok(true)), (terminal.clone(), 1));
    assert_eq!(job_outcome(JobHandler::ScheduleRun, Ok(true)), (terminal.clone(), 1));
    assert_eq!(job_outcome(JobHandler::ScheduleRun, Ok(false)), (terminal.clone(), 0));
    assert_eq!(job_outcome(JobHandler::DeviceRename, Ok(false)), (terminal, 1));
    assert_eq!(
        job_outcome(JobHandler::ScheduleRun, Err("no calendar".to_string())),
        (JobResult::Failure("no calendar".to_string()), 1)
    );
}

#[test]
fn renders_are_read_from_the_rendering_queue() {
    assert_eq!(sealed_render(&QueueResponse::Item(QueueValue::Empty)), None);
    assert_eq!(sealed_render(&QueueResponse::Item(text("render"))), Some("render".to_string()));
    assert_eq!(
        sealed_render(&QueueResponse::Array(vec![text("ob:rendering"), text("render")])),
        Some("render".to_string())
    );
    assert_eq!(sealed_render(&QueueResponse::Array(vec![text("ob:rendering"), QueueValue::Integer(1)])), None);
}

#[test]
fn renders_go_to_the_device_queue() {
    let lights = QueuedRender {
        id: "r1".to_string(),
        auth: QueuedRenderAuthority::Registrar,
        layout: RenderVariant::Lighting(RenderLayoutContainer { layout: LightingLayout::On, created: None }),
        device_id: "abc".to_string(),
    };
    let plan = plan_render(lights);
    assert_eq!(plan.id, "r1");
    assert_eq!(plan.queue_id, "ob:abc");
    assert_eq!(plan.delivery, Delivery::Lights("lighting:on".to_string()));

    let layout = QueuedRender {
        id: "r2".to_string(),
        auth: QueuedRenderAuthority::User("u".to_string()),
        layout: RenderVariant::Layout(RenderLayoutContainer { layout: RenderLayout::Clear, created: Some(5) }),
        device_id: "xyz".to_string(),
    };
    let plan = plan_render(layout);
    assert_eq!(plan.queue_id, "ob:xyz");
    assert_eq!(plan.delivery, Delivery::Raster { layout: RenderLayout::Clear, width: 400, height: 300 });
    assert_eq!((DISPLAY_WIDTH, DISPLAY_HEIGHT), (400, 300));
}

#[test]
fn oversized_images_are_refused() {
    assert!(within_resolution((400, 300)));
    assert!(within_resolution((MAX_WIDTH, MAX_HEIGHT)));
    assert!(within_resolution((0, 0)));
    assert!(!within_resolution((401, 300)));
    assert!(!within_resolution((400, 301)));
}

#[test]
fn queue_requests_need_a_user_and_a_content_type() {
    assert_eq!(queue_body(false, Some("image/png")), Err(QueueRefusal::MissingUser));
    assert_eq!(queue_body(true, None), Err(QueueRefusal::MissingContentType));
    assert_eq!(queue_body(true, Some("image/png")), Ok(Some(ImageKind::Png)));
    assert_eq!(queue_body(true, Some("image/jpeg")), Ok(Some(ImageKind::Jpeg)));
    assert_eq!(queue_body(true, Some("application/json")), Ok(None));
    assert_eq!(queue_body(true, Some("image/pn")), Ok(None));
    assert_eq!(ImageKind::Jpeg.extension(), "jpg");
    assert_eq!(ImageKind::Png.extension(), "png");
    assert_eq!(QueueRefusal::MissingUser.status(), 404);
    assert_eq!(QueueRefusal::MissingUser.reason(), "missing-user");
    assert_eq!(QueueRefusal::ImageTooLarge.status(), 422);
    assert_eq!(QueueRefusal::ImageTooLarge.reason(), "image too large");
    assert_eq!(QueueRefusal::DeviceNotFound.status(), 400);
    assert_eq!(QueueRefusal::DeviceNotFound.reason(), "not-found");
}

#[test]
fn uploads_are_checked_for_access_and_size() {
    assert_eq!(upload_verdict(false, Some(10)), Err(QueueRefusal::UploadNotFound));
    assert_eq!(upload_verdict(true, None), Err(QueueRefusal::MissingUploadSize));
    assert_eq!(upload_verdict(true, Some(MAX_FILE_SIZE as usize)), Ok(()));
    assert_eq!(upload_verdict(true, Some(MAX_FILE_SIZE as usize + 1)), Err(QueueRefusal::ImageTooLarge));
    assert_eq!(payload_verdict(false, true), Err(QueueRefusal::BadRequest));
    assert_eq!(payload_verdict(true, false), Err(QueueRefusal::DeviceNotFound));
    assert_eq!(payload_verdict(true, true), Ok(()));
}

#[test]
fn migrations_run_once_and_roll_back() {
    assert_eq!(all_migrations(), vec![Migration::M0]);
    let first = plan_migrations(&vec![], MigrateOp::Up);
    assert_eq!(first.runs, vec![MigrationRun::Up(Migration::M0)]);
    assert_eq!(first.history, vec![Migration::M0]);
    let second = plan_migrations(&first.history, MigrateOp::Up);
    assert_eq!(second.runs, vec![]);
    assert_eq!(second.history, vec![Migration::M0]);
    let forced = plan_migrations(&first.history, MigrateOp::UpForce);
    assert_eq!(forced.runs, vec![MigrationRun::Up(Migration::M0)]);
    let down = plan_migrations(&first.history, MigrateOp::Down);
    assert_eq!(down.runs, vec![MigrationRun::Down(Migration::M0)]);
    assert_eq!(down.history, vec![]);
    let idle = plan_migrations(&vec![], MigrateOp::Down);
    assert_eq!(idle.runs, vec![]);
    let forced_down = plan_migrations(&vec![], MigrateOp::DownForce);
    assert_eq!(forced_down.runs, vec![MigrationRun::Down(Migration::M0)]);
    assert_eq!(forced_down.history, vec![]);
}

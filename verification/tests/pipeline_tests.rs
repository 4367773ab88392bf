use mcp_agents::pipeline::AgentsCallOutcome;
use mcp_agents::pipeline::FlowEvent;
use mcp_agents::pipeline::FlowStage;
use mcp_agents::pipeline::InputTextRequest;
use mcp_agents::pipeline::PipelineError;
use mcp_agents::pipeline::RpcCallOutcome;
use mcp_agents::pipeline::StoreOutcome;
use mcp_agents::pipeline::SynthesisOutcome;
use mcp_agents::pipeline::TranscriptionOutcome;
use mcp_agents::pipeline::advance;
use mcp_agents::pipeline::artifact_filename;
use mcp_agents::pipeline::audio_flow_start;
use mcp_agents::pipeline::build_list_agents_call;
use mcp_agents::pipeline::build_process_text_call;
use mcp_agents::pipeline::interpret_agents_reply;
use mcp_agents::pipeline::pipeline_error_status;
use mcp_agents::pipeline::text_flow_start;
use mcp_agents::registry::AgentInfo;
use mcp_agents::rpc::ListAgentsResult;
use mcp_agents::rpc::ParamsField;
use mcp_agents::rpc::RpcId;

fn expect_failure(stage: FlowStage) -> PipelineError {
    match stage {
        FlowStage::Failed { error } => error,
        _ => panic!("expected a failed flow"),
    }
}

#[test]
fn text_flow_success_runs_rpc_then_synthesis_then_store() {
    let s0 = text_flow_start(InputTextRequest {
        agent_id: "agent_001".to_string(),
        user_text: "hello".to_string(),
    });
    match &s0 {
        FlowStage::NeedRpc { agent_id, user_text } => {
            assert_eq!(agent_id, "agent_001");
            assert_eq!(user_text, "hello");
        }
        _ => panic!("a text flow starts at the remote call"),
    }
    let s1 = advance(
        s0,
        FlowEvent::RpcDone(RpcCallOutcome::Reply { reply_text: "hi there".to_string() }),
    );
    match &s1 {
        FlowStage::NeedSynthesis { reply_text } => assert_eq!(reply_text, "hi there"),
        _ => panic!("after the reply comes synthesis"),
    }
    let s2 = advance(
        s1,
        FlowEvent::SynthesisDone(SynthesisOutcome::Audio { bytes: vec![1, 2, 3] }),
    );
    match &s2 {
        FlowStage::NeedStore { reply_text, audio } => {
            assert_eq!(reply_text, "hi there");
            assert_eq!(audio, &vec![1, 2, 3]);
        }
        _ => panic!("after synthesis comes the store write"),
    }
    let s3 = advance(
        s2,
        FlowEvent::StoreDone(StoreOutcome::Stored { name: "abc.mp3".to_string() }),
    );
    match s3 {
        FlowStage::Done { reply } => {
            assert_eq!(reply.reply_text, "hi there");
            assert_eq!(reply.audio_url, "/public/audio/abc.mp3");
        }
        _ => panic!("a stored artifact ends the flow"),
    }
}

#[test]
fn audio_flow_missing_fields_is_bad_request_only() {
    let cases: Vec<(Option<Vec<u8>>, Option<String>)> = vec![
        (None, Some("agent_001".to_string())),
        (Some(vec![1]), None),
        (None, None),
    ];
    for (audio, agent_id) in cases {
        let stage = audio_flow_start(audio, None, agent_id);
        let error = expect_failure(stage);
        match &error {
            PipelineError::BadRequest { message } => {
                assert_eq!(message, "Missing 'audio_file' or 'agent_id'");
            }
            _ => panic!("missing fields are the caller's fault"),
        }
        assert_eq!(pipeline_error_status(&error), 400);
    }
}

#[test]
fn audio_flow_starts_with_transcription() {
    let stage = audio_flow_start(
        Some(vec![9, 9]),
        Some("clip.wav".to_string()),
        Some("agent_003".to_string()),
    );
    match &stage {
        FlowStage::NeedTranscription { audio, filename, agent_id } => {
            assert_eq!(audio, &vec![9, 9]);
            assert_eq!(filename, "clip.wav");
            assert_eq!(agent_id, "agent_003");
        }
        _ => panic!("an audio flow starts at transcription"),
    }
    let next = advance(
        stage,
        FlowEvent::TranscriptionDone(TranscriptionOutcome::Parsed {
            text: Some("what is defi".to_string()),
        }),
    );
    match next {
        FlowStage::NeedRpc { agent_id, user_text } => {
            assert_eq!(agent_id, "agent_003");
            assert_eq!(user_text, "what is defi");
        }
        _ => panic!("a transcript moves the flow to the remote call"),
    }
}

#[test]
fn missing_transcript_field_becomes_empty_text() {
    let stage = audio_flow_start(Some(vec![1]), None, Some("agent_001".to_string()));
    match &stage {
        FlowStage::NeedTranscription { filename, .. } => assert_eq!(filename, "audio.mp3"),
        _ => panic!("an audio flow starts at transcription"),
    }
    let next = advance(
        stage,
        FlowEvent::TranscriptionDone(TranscriptionOutcome::Parsed { text: None }),
    );
    match next {
        FlowStage::NeedRpc { user_text, .. } => assert_eq!(user_text, ""),
        _ => panic!("an absent transcript is empty text, not a failure"),
    }
}

#[test]
fn transcription_rejection_reports_status_and_body() {
    let stage = audio_flow_start(Some(vec![1]), None, Some("agent_001".to_string()));
    let error = expect_failure(advance(
        stage,
        FlowEvent::TranscriptionDone(TranscriptionOutcome::HttpError {
            status: 402,
            body: "Payment required".to_string(),
        }),
    ));
    match &error {
        PipelineError::Speech { status, message } => {
            assert_eq!(*status, Some(402));
            assert_eq!(message, "Error from STT service (status 402): Payment required");
            assert!(message.contains("402"));
            assert!(message.contains("Payment required"));
        }
        _ => panic!("a provider rejection is a speech failure"),
    }
    assert_eq!(pipeline_error_status(&error), 500);
}

#[test]
fn transcription_transport_and_parse_failures() {
    let start = || audio_flow_start(Some(vec![1]), None, Some("agent_001".to_string()));
    let e1 = expect_failure(advance(
        start(),
        FlowEvent::TranscriptionDone(TranscriptionOutcome::Transport {
            details: "dns".to_string(),
        }),
    ));
    match &e1 {
        PipelineError::Speech { status, message } => {
            assert_eq!(*status, None);
            assert_eq!(message, "Failed to call STT service");
        }
        _ => panic!("a transport failure is a speech failure"),
    }
    let e2 = expect_failure(advance(
        start(),
        FlowEvent::TranscriptionDone(TranscriptionOutcome::Unparsable {
            details: "not json".to_string(),
        }),
    ));
    match &e2 {
        PipelineError::Speech { message, .. } => {
            assert_eq!(message, "Failed to parse STT response");
        }
        _ => panic!("an unparsable body is a speech failure"),
    }
}

#[test]
fn rpc_failures_are_upstream_errors() {
    let start = || {
        text_flow_start(InputTextRequest {
            agent_id: "agent_001".to_string(),
            user_text: "hi".to_string(),
        })
    };
    let cases = vec![
        (RpcCallOutcome::Transport { details: "refused".to_string() }, "Failed to call MCP service"),
        (RpcCallOutcome::HttpError { status: 500 }, "Error from MCP service"),
        (RpcCallOutcome::Unparsable { details: "bad".to_string() }, "Error parsing MCP response"),
    ];
    for (outcome, expected) in cases {
        let error = expect_failure(advance(start(), FlowEvent::RpcDone(outcome)));
        match &error {
            PipelineError::UpstreamAgent { message } => assert_eq!(message, expected),
            _ => panic!("a runtime failure is an upstream error"),
        }
        assert_eq!(pipeline_error_status(&error), 500);
    }
}

#[test]
fn synthesis_failures_are_speech_errors() {
    let start = || {
        let s = text_flow_start(InputTextRequest {
            agent_id: "agent_001".to_string(),
            user_text: "hi".to_string(),
        });
        advance(s, FlowEvent::RpcDone(RpcCallOutcome::Reply { reply_text: "ok".to_string() }))
    };
    let error = expect_failure(advance(
        start(),
        FlowEvent::SynthesisDone(SynthesisOutcome::HttpError {
            status: 401,
            body: "bad key".to_string(),
        }),
    ));
    match &error {
        PipelineError::Speech { status, message } => {
            assert_eq!(*status, Some(401));
            assert_eq!(message, "Error from TTS service (status 401): bad key");
        }
        _ => panic!("a provider rejection is a speech failure"),
    }
    let e2 = expect_failure(advance(
        start(),
        FlowEvent::SynthesisDone(SynthesisOutcome::Transport { details: "x".to_string() }),
    ));
    match &e2 {
        PipelineError::Speech { status, message } => {
            assert_eq!(*status, None);
            assert_eq!(message, "Failed to call TTS service");
        }
        _ => panic!("a transport failure is a speech failure"),
    }
    let e3 = expect_failure(advance(
        start(),
        FlowEvent::SynthesisDone(SynthesisOutcome::BodyUnread { details: "x".to_string() }),
    ));
    match &e3 {
        PipelineError::Speech { message, .. } => assert_eq!(message, "Failed to read TTS audio"),
        _ => panic!("unread audio is a speech failure"),
    }
}

#[test]
fn store_failures_are_storage_errors() {
    let start = || {
        let s = text_flow_start(InputTextRequest {
            agent_id: "agent_001".to_string(),
            user_text: "hi".to_string(),
        });
        let s = advance(s, FlowEvent::RpcDone(RpcCallOutcome::Reply { reply_text: "ok".to_string() }));
        advance(s, FlowEvent::SynthesisDone(SynthesisOutcome::Audio { bytes: vec![0] }))
    };
    let e1 = expect_failure(advance(
        start(),
        FlowEvent::StoreDone(StoreOutcome::CreateFailed { details: "denied".to_string() }),
    ));
    match &e1 {
        PipelineError::Storage { message } => assert_eq!(message, "Failed to create audio file"),
        _ => panic!("a create failure is a storage error"),
    }
    let e2 = expect_failure(advance(
        start(),
        FlowEvent::StoreDone(StoreOutcome::WriteFailed { details: "disk".to_string() }),
    ));
    match &e2 {
        PipelineError::Storage { message } => assert_eq!(message, "Failed to save audio file"),
        _ => panic!("a write failure is a storage error"),
    }
}

#[test]
fn artifact_filenames_are_fresh_and_mp3() {
    let a = artifact_filename();
    let b = artifact_filename();
    assert_eq!(a.len(), 40);
    assert_eq!(b.len(), 40);
    assert!(a.ends_with(".mp3"));
    assert!(b.ends_with(".mp3"));
    assert_ne!(a, b);
}

#[test]
fn outbound_process_text_call_sends_no_history() {
    let req = build_process_text_call("agent_002".to_string(), "hi".to_string());
    assert_eq!(req.jsonrpc, "2.0");
    assert_eq!(req.method, "process_text");
    assert!(matches!(req.id, RpcId::Number(1)));
    match req.params {
        ParamsField::Valid(p) => {
            assert_eq!(p.agent_id, "agent_002");
            assert_eq!(p.user_text, "hi");
            assert!(p.conversation_history.is_none());
        }
        _ => panic!("the outbound call carries typed params"),
    }
}

#[test]
fn outbound_list_agents_call() {
    let req = build_list_agents_call();
    assert_eq!(req.jsonrpc, "2.0");
    assert_eq!(req.method, "list_agents");
    assert!(matches!(req.params, ParamsField::Absent));
    assert!(matches!(req.id, RpcId::Number(1)));
}

#[test]
fn agents_listing_outcomes() {
    let result = ListAgentsResult {
        agents: vec![AgentInfo {
            id: "agent_001".to_string(),
            name: "General Assistant".to_string(),
            description: "d".to_string(),
        }],
    };
    match interpret_agents_reply(AgentsCallOutcome::Parsed { result }) {
        Ok(v) => {
            assert_eq!(v.len(), 1);
            assert_eq!(v[0].id, "agent_001");
        }
        Err(_) => panic!("a parsed listing is a success"),
    }
    let cases = vec![
        (AgentsCallOutcome::Transport { details: "x".to_string() }, "Failed to call MCP service"),
        (AgentsCallOutcome::HttpError { status: 502 }, "Error from MCP service"),
        (AgentsCallOutcome::Unparsable { details: "x".to_string() }, "Error parsing MCP response"),
    ];
    for (outcome, expected) in cases {
        match interpret_agents_reply(outcome) {
            Err((status, message)) => {
                assert_eq!(status, 500);
                assert_eq!(message, expected);
            }
            Ok(_) => panic!("a failure outcome is an error"),
        }
    }
}

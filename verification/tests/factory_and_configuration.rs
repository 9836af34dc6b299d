use ticket_rag::config::{
    AppConfig, DatabaseConfig, EmbeddingConfig, LLMConfig, LoggingConfig, RerankingConfig,
    ServerConfig, VectorDbConfig,
};
use ticket_rag::configuration::{ConfigurationLoader, EnvOverrides};
use ticket_rag::errors::AppError;
use ticket_rag::factory::{ServiceFactory, VectorBackend};
use ticket_rag::services::{
    PostgresVectorDB, QdrantVectorDB, QwenEmbeddingService, QwenLLMService, QwenRerankService,
    SqliteVectorDB,
};
use ticket_rag::single::Single;

fn config() -> AppConfig {
    AppConfig {
        server: ServerConfig::default(),
        database: DatabaseConfig {
            url: "postgres://localhost/rag".to_string(),
            max_connections: 10,
            min_connections: 1,
            acquire_timeout: 30,
        },
        vector_db: VectorDbConfig {
            provider: "sqlite".to_string(),
            connection_string: "vectors.db".to_string(),
            dimension: 1024,
            collection_name: None,
            table_name: None,
        },
        embedding: EmbeddingConfig {
            provider: "qwen".to_string(),
            model: "text-embedding-v3".to_string(),
            api_key: "ek".to_string(),
            endpoint: "https://e.example".to_string(),
            dimension: 1024,
            batch_size: 32,
            timeout: 30,
        },
        reranking: RerankingConfig {
            provider: "qwen".to_string(),
            model: "gte-rerank".to_string(),
            api_key: "rk".to_string(),
            endpoint: "https://r.example".to_string(),
            max_documents: 50,
            timeout: 30,
        },
        llm: LLMConfig {
            provider: "qwen".to_string(),
            model: "qwen-max".to_string(),
            api_key: "lk".to_string(),
            endpoint: "https://l.example".to_string(),
            max_tokens: 2048,
            temperature: Single::from_bits(0.2f32.to_bits()),
            timeout: 60,
        },
        logging: LoggingConfig::default(),
    }
}

fn configuration_error(result: Result<(), AppError>) -> String {
    match result {
        Err(AppError::Configuration { message }) => message,
        other => panic!("{other:?}"),
    }
}

#[test]
fn defaults_are_as_documented() {
    let server = ServerConfig::default();
    assert_eq!(server.host, "0.0.0.0");
    assert_eq!(server.port, 8080);
    assert_eq!(server.workers, None);
    let logging = LoggingConfig::default();
    assert_eq!(logging.level, "info");
    assert_eq!(logging.file, None);
    assert!(!logging.json_format);
    assert!(config().validate().is_ok());
}

#[test]
fn the_embedding_factory_knows_qwen_only() {
    let c = config();
    let service = ServiceFactory::create_embedding_service(&c.embedding).unwrap();
    assert_eq!(service.api_key, "ek");
    assert_eq!(service.model, "text-embedding-v3");
    assert_eq!(service.dimension, 1024);
    assert_eq!(service.endpoint, "https://e.example");
    assert_eq!(service.batch_size, 32);
    assert_eq!(service.timeout, 30);
    assert_eq!(service.dimension(), 1024);

    for provider in ["openai", "Qwen", "", "qwen ", "local"] {
        let mut e = c.embedding.clone();
        e.provider = provider.to_string();
        match ServiceFactory::create_embedding_service(&e) {
            Err(AppError::Configuration { message }) => {
                assert_eq!(message, format!("不支持的嵌入服务提供商: {provider}"))
            }
            other => panic!("{other:?}"),
        }
    }
}

#[test]
fn the_rerank_factory_knows_qwen_only() {
    let c = config();
    let service = ServiceFactory::create_rerank_service(&c.reranking).unwrap();
    assert_eq!(service.api_key, "rk");
    assert_eq!(service.model, "gte-rerank");
    assert_eq!(service.endpoint, "https://r.example");
    assert_eq!(service.max_documents(), 50);
    assert_eq!(service.max_documents, 50);
    assert_eq!(service.timeout, 30);
    let mut r = c.reranking.clone();
    r.provider = "cohere".to_string();
    match ServiceFactory::create_rerank_service(&r) {
        Err(AppError::Configuration { message }) => {
            assert_eq!(message, "不支持的重排序服务提供商: cohere")
        }
        other => panic!("{other:?}"),
    }
}

#[test]
fn the_generation_factory_knows_qwen_only() {
    let c = config();
    let service = ServiceFactory::create_llm_service(&c.llm).unwrap();
    assert_eq!(service.api_key, "lk");
    assert_eq!(service.model, "qwen-max");
    assert_eq!(service.endpoint, "https://l.example");
    assert_eq!(service.max_tokens, 2048);
    assert_eq!(service.model_info().max_tokens, 2048);
    assert_eq!(service.model_info().name, "qwen-max");
    assert_eq!(f32::from_bits(service.temperature.to_bits()), 0.2);
    assert_eq!(service.timeout, 60);
    let mut other = c.llm.clone();
    other.max_tokens = 4096;
    other.temperature = Single::from_bits(0.7f32.to_bits());
    other.timeout = 5;
    let service = ServiceFactory::create_llm_service(&other).unwrap();
    assert_eq!(service.max_tokens, 4096);
    assert_eq!(f32::from_bits(service.temperature.to_bits()), 0.7);
    assert_eq!(service.timeout, 5);
    let mut l = c.llm.clone();
    l.provider = "openai".to_string();
    match ServiceFactory::create_llm_service(&l) {
        Err(AppError::Configuration { message }) => {
            assert_eq!(message, "不支持的LLM服务提供商: openai")
        }
        other => panic!("{other:?}"),
    }
}

#[test]
fn the_vector_store_factory_knows_three_stores() {
    let mut v = config().vector_db;
    match ServiceFactory::create_vector_database(&v).unwrap() {
        VectorBackend::Sqlite(store) => {
            assert_eq!(store.database_path, "vectors.db");
            assert_eq!(store.dimension, 1024);
            assert_eq!(store.table_name, "ticket_vectors");
        }
        other => panic!("{other:?}"),
    }
    v.provider = "qdrant".to_string();
    match ServiceFactory::create_vector_database(&v).unwrap() {
        VectorBackend::Qdrant(store) => {
            assert_eq!(store.endpoint, "vectors.db");
            assert_eq!(store.dimension, 1024);
            assert_eq!(store.collection_name, "tickets");
        }
        other => panic!("{other:?}"),
    }
    v.provider = "postgres".to_string();
    match ServiceFactory::create_vector_database(&v).unwrap() {
        VectorBackend::Postgres(store) => {
            assert_eq!(store.database_url, "vectors.db");
            assert_eq!(store.dimension, 1024);
            assert_eq!(store.table_name, "ticket_vectors");
        }
        other => panic!("{other:?}"),
    }

    v.table_name = Some("cases".to_string());
    v.collection_name = Some("support".to_string());
    v.dimension = 8;
    v.provider = "sqlite".to_string();
    match ServiceFactory::create_vector_database(&v).unwrap() {
        VectorBackend::Sqlite(store) => {
            assert_eq!(store.table_name, "cases");
            assert_eq!(store.dimension, 8);
        }
        other => panic!("{other:?}"),
    }
    v.provider = "qdrant".to_string();
    match ServiceFactory::create_vector_database(&v).unwrap() {
        VectorBackend::Qdrant(store) => assert_eq!(store.collection_name, "support"),
        other => panic!("{other:?}"),
    }
    v.provider = "postgres".to_string();
    match ServiceFactory::create_vector_database(&v).unwrap() {
        VectorBackend::Postgres(store) => assert_eq!(store.table_name, "cases"),
        other => panic!("{other:?}"),
    }
    for provider in ["milvus", "SQLite", ""] {
        v.provider = provider.to_string();
        match ServiceFactory::create_vector_database(&v) {
            Err(AppError::Configuration { message }) => {
                assert_eq!(message, format!("不支持的向量数据库提供商: {provider}"))
            }
            other => panic!("{other:?}"),
        }
    }
}

#[test]
fn a_whole_set_is_made_of_a_good_configuration() {
    let set = ServiceFactory::create_service_container(&config()).unwrap();
    assert_eq!(set.embedding.model, "text-embedding-v3");
    assert_eq!(set.reranking.model, "gte-rerank");
    assert_eq!(set.llm.model, "qwen-max");
    assert_eq!(set.llm.max_tokens, 2048);
    assert_eq!(set.embedding.batch_size, 32);
    assert_eq!(set.reranking.max_documents, 50);
    assert!(matches!(set.vector_db, VectorBackend::Sqlite(_)));
    assert_eq!(set.vector_db.database_info().name, "SQLite + vec0");
}

#[test]
fn no_set_is_made_without_credentials_or_of_unknown_providers() {
    let failure = |c: &AppConfig| match ServiceFactory::create_service_container(c) {
        Err(AppError::Configuration { message }) => message,
        other => panic!("{other:?}"),
    };
    let mut c = config();
    c.llm.api_key = " ".to_string();
    c.embedding.provider = "openai".to_string();
    assert_eq!(failure(&c), "LLM服务API密钥不能为空");
    c.llm.api_key = "k".to_string();
    c.llm.provider = "x".to_string();
    c.vector_db.provider = "y".to_string();
    c.reranking.provider = "z".to_string();
    assert_eq!(failure(&c), "不支持的嵌入服务提供商: openai");
    c.embedding.provider = "qwen".to_string();
    assert_eq!(failure(&c), "不支持的重排序服务提供商: z");
    c.reranking.provider = "qwen".to_string();
    assert_eq!(failure(&c), "不支持的向量数据库提供商: y");
    c.vector_db.provider = "qdrant".to_string();
    assert_eq!(failure(&c), "不支持的LLM服务提供商: x");
    c.llm.provider = "qwen".to_string();
    assert!(ServiceFactory::create_service_container(&c).is_ok());
}

#[test]
fn missing_credentials_are_named_in_their_order() {
    assert!(ConfigurationLoader::validate_config(&config()).is_ok());
    let mut c = config();
    c.database.url = "".to_string();
    assert_eq!(configuration_error(ConfigurationLoader::validate_config(&c)), "数据库连接字符串不能为空");
    c.llm.api_key = "\t".to_string();
    assert_eq!(configuration_error(ConfigurationLoader::validate_config(&c)), "LLM服务API密钥不能为空");
    c.reranking.api_key = " ".to_string();
    assert_eq!(configuration_error(ConfigurationLoader::validate_config(&c)), "重排序服务API密钥不能为空");
    c.embedding.api_key = String::new();
    assert_eq!(configuration_error(ConfigurationLoader::validate_config(&c)), "嵌入服务API密钥不能为空");
}

fn no_overrides() -> EnvOverrides {
    EnvOverrides {
        server_host: None,
        server_port: None,
        database_url: None,
        embedding_api_key: None,
        embedding_endpoint: None,
        rerank_api_key: None,
        llm_api_key: None,
    }
}

#[test]
fn an_empty_environment_changes_nothing() {
    let after = ConfigurationLoader::apply_env_overrides(config(), no_overrides()).unwrap();
    assert_eq!(format!("{after:?}"), format!("{:?}", config()));
}

#[test]
fn the_environment_wins_over_the_file() {
    let env = EnvOverrides {
        server_host: Some("127.0.0.1".to_string()),
        server_port: Some("9000".to_string()),
        database_url: Some("postgres://db/other".to_string()),
        embedding_api_key: Some("E".to_string()),
        embedding_endpoint: Some("https://other".to_string()),
        rerank_api_key: Some("R".to_string()),
        llm_api_key: Some("L".to_string()),
    };
    let after = ConfigurationLoader::apply_env_overrides(config(), env).unwrap();
    assert_eq!(after.server.host, "127.0.0.1");
    assert_eq!(after.server.port, 9000);
    assert_eq!(after.database.url, "postgres://db/other");
    assert_eq!(after.embedding.api_key, "E");
    assert_eq!(after.embedding.endpoint, "https://other");
    assert_eq!(after.reranking.api_key, "R");
    assert_eq!(after.llm.api_key, "L");
    assert_eq!(after.embedding.model, "text-embedding-v3");
    assert_eq!(after.reranking.endpoint, "https://r.example");
    assert_eq!(after.llm.endpoint, "https://l.example");
    assert_eq!(after.vector_db.provider, "sqlite");
    assert_eq!(after.database.max_connections, 10);
}

#[test]
fn a_port_that_is_no_port_is_passed_over() {
    for text in ["", "http", "65536", "-1", "80 ", "8080.0"] {
        let mut env = no_overrides();
        env.server_port = Some(text.to_string());
        let after = ConfigurationLoader::apply_env_overrides(config(), env).unwrap();
        assert_eq!(after.server.port, 8080, "{text:?}");
    }
    let mut env = no_overrides();
    env.server_port = Some("+443".to_string());
    assert_eq!(ConfigurationLoader::apply_env_overrides(config(), env).unwrap().server.port, 443);
}

#[test]
fn backends_say_what_they_are() {
    let e = QwenEmbeddingService::new("k".to_string(), "m".to_string(), 8, "u".to_string(), 4, 9);
    assert_eq!(e.batch_size, 4);
    assert_eq!(e.timeout, 9);
    let info = e.model_info();
    assert_eq!(info.name, "m");
    assert_eq!(info.version, "3.0");
    assert_eq!(info.provider, "Qwen");
    assert_eq!(info.max_tokens, 8192);
    assert_eq!(info.cost_per_call.map(|c| f32::from_bits(c.to_bits())), Some(0.0001));

    let r = QwenRerankService::new("k".to_string(), "rm".to_string(), "u".to_string(), 7, 11);
    assert_eq!(r.max_documents(), 7);
    assert_eq!(r.timeout, 11);
    let info = r.model_info();
    assert_eq!(info.name, "rm");
    assert_eq!(info.version, "1.0");
    assert_eq!(info.max_tokens, 512);
    assert_eq!(info.cost_per_call.map(|c| f32::from_bits(c.to_bits())), Some(0.0002));

    let l = QwenLLMService::new(
        "k".to_string(),
        "lm".to_string(),
        "u".to_string(),
        777,
        Single::from_bits(0.5f32.to_bits()),
        13,
    );
    assert_eq!(l.timeout, 13);
    let info = l.model_info();
    assert_eq!(info.name, "lm");
    assert_eq!(info.version, "2.5");
    assert_eq!(info.max_tokens, 777);
    assert_eq!(info.cost_per_call.map(|c| f32::from_bits(c.to_bits())), Some(0.001));

    let s = SqliteVectorDB::new("p", 16).unwrap();
    assert_eq!((s.database_path.as_str(), s.table_name.as_str(), s.dimension), ("p", "ticket_vectors", 16));
    let s = s.database_info();
    assert_eq!((s.name.as_str(), s.version.as_str()), ("SQLite + vec0", "0.1.0"));
    assert!(!s.supports_hybrid_search && s.supports_filtering);
    assert_eq!((s.max_dimension, s.recommended_batch_size), (4096, 100));
    let q = QdrantVectorDB::new("p", "c".to_string(), 16).unwrap();
    assert_eq!(q.collection_name, "c");
    assert_eq!(q.endpoint, "p");
    assert_eq!(q.dimension, 16);
    let q = q.database_info();
    assert_eq!((q.name.as_str(), q.version.as_str()), ("Qdrant", "1.7.0"));
    assert!(q.supports_hybrid_search && q.supports_filtering);
    assert_eq!((q.max_dimension, q.recommended_batch_size), (65536, 1000));
    let p = PostgresVectorDB::new("p", "t".to_string(), 16).unwrap();
    assert_eq!(p.table_name, "t");
    assert_eq!(p.database_url, "p");
    let p = p.database_info();
    assert_eq!((p.name.as_str(), p.version.as_str()), ("PostgreSQL + pgvector", "0.5.0"));
    assert_eq!((p.max_dimension, p.recommended_batch_size), (16000, 500));
}

//! The service's configuration and the rules it must meet.

use crate::text::{parse_unsigned, parsed_unsigned};
use vstd::prelude::*;

verus! {

/// Everything the service is told at start.
#[derive(Debug, Clone)]
pub struct Config {
    pub service: ServiceConfig,
    pub storage: StorageConfig,
    pub cameras: Vec<CameraConfig>,
    pub recording: RecordingConfig,
    pub upload: UploadConfig,
}

#[derive(Debug, Clone)]
pub struct ServiceConfig {
    /// Port of the metrics and health endpoint.
    pub metrics_port: u16,
}

/// The object store that segments are shipped to.
#[derive(Debug, Clone)]
pub struct StorageConfig {
    pub endpoint: String,
    pub bucket: String,
    pub region: String,
    pub access_key_id: String,
    pub secret_access_key: String,
}

/// One camera: who it is, where its stream is, how long a segment lasts.
#[derive(Debug, Clone)]
pub struct CameraConfig {
    pub id: String,
    pub name: String,
    pub rtsp_url: String,
    pub segment_duration_secs: u64,
}

/// How and where the capture tool records.
#[derive(Debug, Clone)]
pub struct RecordingConfig {
    /// Directory under which each camera gets a directory of its own.
    pub temp_dir: String,
    pub local_retention_minutes: u64,
    pub video_codec: String,
    pub audio_codec: String,
}

/// Limits of the upload pipeline.
#[derive(Debug, Clone)]
pub struct UploadConfig {
    /// Uploads that may be in flight at once.
    pub max_concurrent: usize,
    /// Failed attempts after which a segment is given up.
    pub max_retries: u32,
    /// Delay before the first retry, in seconds; it doubles with each further one.
    pub retry_backoff_secs: u64,
}

/// Why a configuration is refused.
#[derive(Debug, Clone, Copy, PartialEq, Eq, Structural)]
pub enum ConfigError {
    /// The list of cameras is empty.
    NoCameras,
    /// The storage endpoint is empty.
    NoStorageEndpoint,
    /// The storage bucket is empty.
    NoStorageBucket,
    /// `METRICS_PORT` is no port number.
    InvalidMetricsPort,
    /// `S3_ENDPOINT` is not set.
    EndpointNotSet,
    /// `S3_ACCESS_KEY_ID` is not set.
    AccessKeyIdNotSet,
    /// `S3_SECRET_ACCESS_KEY` is not set.
    SecretAccessKeyNotSet,
    /// `CAMERA1_RTSP_URL` is not set.
    Camera1UrlNotSet,
    /// `CAMERA2_RTSP_URL` is not set.
    Camera2UrlNotSet,
}

/// The environment variables that a configuration is read from, each with
/// its value, or `None` where it is not set.
#[derive(Debug, Clone)]
pub struct Environment {
    /// `METRICS_PORT`
    pub metrics_port: Option<String>,
    /// `S3_ENDPOINT`
    pub s3_endpoint: Option<String>,
    /// `S3_BUCKET`
    pub s3_bucket: Option<String>,
    /// `S3_REGION`
    pub s3_region: Option<String>,
    /// `S3_ACCESS_KEY_ID`
    pub s3_access_key_id: Option<String>,
    /// `S3_SECRET_ACCESS_KEY`
    pub s3_secret_access_key: Option<String>,
    /// `CAMERA1_RTSP_URL`
    pub camera1_rtsp_url: Option<String>,
    /// `CAMERA2_RTSP_URL`
    pub camera2_rtsp_url: Option<String>,
    /// `TEMP_DIR`
    pub temp_dir: Option<String>,
    /// `MAX_CONCURRENT_UPLOADS`
    pub max_concurrent_uploads: Option<String>,
}

pub const DEFAULT_METRICS_PORT: &'static str = "9090";

pub const DEFAULT_BUCKET: &'static str = "camera-recordings";

pub const DEFAULT_REGION: &'static str = "us-east-1";

pub const DEFAULT_TEMP_DIR: &'static str = "/tmp/camera-recordings";

pub const DEFAULT_MAX_CONCURRENT: usize = 4;

/// Segment length of the cameras read from the environment: 15 minutes.
pub const DEFAULT_SEGMENT_SECS: u64 = 900;

pub const DEFAULT_RETENTION_MINUTES: u64 = 60;

pub const DEFAULT_VIDEO_CODEC: &'static str = "copy";

pub const DEFAULT_AUDIO_CODEC: &'static str = "aac";

pub const DEFAULT_MAX_RETRIES: u32 = 5;

pub const DEFAULT_RETRY_BACKOFF_SECS: u64 = 5;

/// The value of a variable, or `default` where it is not set.
pub open spec fn value_or(value: Option<String>, default: Seq<char>) -> Seq<char> {
    match value {
        Some(v) => v@,
        None => default,
    }
}

fn text_or_default(value: Option<String>, default: &str) -> (text: String)
    ensures
        text@ == value_or(value, default@),
{
    match value {
        Some(v) => v,
        None => String::from_str(default),
    }
}

impl Environment {
    /// The metrics port that the environment asks for, if it names one.
    pub open spec fn port(&self) -> Option<nat> {
        parsed_unsigned(value_or(self.metrics_port, DEFAULT_METRICS_PORT@), u16::MAX as nat)
    }

    /// The upload concurrency that the environment asks for: the value of
    /// its variable where that is a number, else the default.
    pub open spec fn max_concurrent(&self) -> nat {
        match self.max_concurrent_uploads {
            Some(v) => match parsed_unsigned(v@, usize::MAX as nat) {
                Some(n) => n,
                None => DEFAULT_MAX_CONCURRENT as nat,
            },
            None => DEFAULT_MAX_CONCURRENT as nat,
        }
    }

    /// The first reason for which no configuration can be read from the
    /// environment, if there is one: a variable that is wrong or missing, in
    /// the order in which they are read, and then the rules that every
    /// configuration must meet.
    pub open spec fn fault(&self) -> Option<ConfigError> {
        if self.port() is None {
            Some(ConfigError::InvalidMetricsPort)
        } else if self.s3_endpoint is None {
            Some(ConfigError::EndpointNotSet)
        } else if self.s3_access_key_id is None {
            Some(ConfigError::AccessKeyIdNotSet)
        } else if self.s3_secret_access_key is None {
            Some(ConfigError::SecretAccessKeyNotSet)
        } else if self.camera1_rtsp_url is None {
            Some(ConfigError::Camera1UrlNotSet)
        } else if self.camera2_rtsp_url is None {
            Some(ConfigError::Camera2UrlNotSet)
        } else if self.s3_endpoint->0@.len() == 0 {
            Some(ConfigError::NoStorageEndpoint)
        } else if value_or(self.s3_bucket, DEFAULT_BUCKET@).len() == 0 {
            Some(ConfigError::NoStorageBucket)
        } else {
            None
        }
    }

    /// Whether `config` is what the environment describes: what it sets,
    /// defaults for the rest, and the two cameras `camera-1` and `camera-2`.
    pub open spec fn describes(&self, config: Config) -> bool {
        &&& self.port() == Some(config.service.metrics_port as nat)
        &&& self.s3_endpoint matches Some(v) && config.storage.endpoint@ == v@
        &&& config.storage.bucket@ == value_or(self.s3_bucket, DEFAULT_BUCKET@)
        &&& config.storage.region@ == value_or(self.s3_region, DEFAULT_REGION@)
        &&& self.s3_access_key_id matches Some(v) && config.storage.access_key_id@ == v@
        &&& self.s3_secret_access_key matches Some(v) && config.storage.secret_access_key@ == v@
        &&& config.cameras@.len() == 2
        &&& config.cameras@[0].id@ == "camera-1"@
        &&& config.cameras@[0].name@ == "Camera 1"@
        &&& self.camera1_rtsp_url matches Some(v) && config.cameras@[0].rtsp_url@ == v@
        &&& config.cameras@[0].segment_duration_secs == DEFAULT_SEGMENT_SECS
        &&& config.cameras@[1].id@ == "camera-2"@
        &&& config.cameras@[1].name@ == "Camera 2"@
        &&& self.camera2_rtsp_url matches Some(v) && config.cameras@[1].rtsp_url@ == v@
        &&& config.cameras@[1].segment_duration_secs == DEFAULT_SEGMENT_SECS
        &&& config.recording.temp_dir@ == value_or(self.temp_dir, DEFAULT_TEMP_DIR@)
        &&& config.recording.local_retention_minutes == DEFAULT_RETENTION_MINUTES
        &&& config.recording.video_codec@ == DEFAULT_VIDEO_CODEC@
        &&& config.recording.audio_codec@ == DEFAULT_AUDIO_CODEC@
        &&& config.upload.max_concurrent == self.max_concurrent()
        &&& config.upload.max_retries == DEFAULT_MAX_RETRIES
        &&& config.upload.retry_backoff_secs == DEFAULT_RETRY_BACKOFF_SECS
    }
}

impl ConfigError {
    /// The error in words.
    pub fn message(&self) -> (text: &'static str)
        ensures
            text@ == match *self {
                ConfigError::NoCameras => "No cameras configured"@,
                ConfigError::NoStorageEndpoint => "Storage endpoint not configured"@,
                ConfigError::NoStorageBucket => "Storage bucket not configured"@,
                ConfigError::InvalidMetricsPort => "METRICS_PORT is not a port number"@,
                ConfigError::EndpointNotSet => "S3_ENDPOINT not set"@,
                ConfigError::AccessKeyIdNotSet => "S3_ACCESS_KEY_ID not set"@,
                ConfigError::SecretAccessKeyNotSet => "S3_SECRET_ACCESS_KEY not set"@,
                ConfigError::Camera1UrlNotSet => "CAMERA1_RTSP_URL not set"@,
                ConfigError::Camera2UrlNotSet => "CAMERA2_RTSP_URL not set"@,
            },
    {
        match self {
            ConfigError::NoCameras => "No cameras configured",
            ConfigError::NoStorageEndpoint => "Storage endpoint not configured",
            ConfigError::NoStorageBucket => "Storage bucket not configured",
            ConfigError::InvalidMetricsPort => "METRICS_PORT is not a port number",
            ConfigError::EndpointNotSet => "S3_ENDPOINT not set",
            ConfigError::AccessKeyIdNotSet => "S3_ACCESS_KEY_ID not set",
            ConfigError::SecretAccessKeyNotSet => "S3_SECRET_ACCESS_KEY not set",
            ConfigError::Camera1UrlNotSet => "CAMERA1_RTSP_URL not set",
            ConfigError::Camera2UrlNotSet => "CAMERA2_RTSP_URL not set",
        }
    }
}

impl Config {
    /// The first rule that the configuration breaks, if it breaks one: there
    /// is at least one camera, and the storage endpoint and bucket are named.
    pub open spec fn fault(&self) -> Option<ConfigError> {
        if self.cameras@.len() == 0 {
            Some(ConfigError::NoCameras)
        } else if self.storage.endpoint@.len() == 0 {
            Some(ConfigError::NoStorageEndpoint)
        } else if self.storage.bucket@.len() == 0 {
            Some(ConfigError::NoStorageBucket)
        } else {
            None
        }
    }

    /// Accepts the configuration or names the first rule it breaks.
    pub fn validate(&self) -> (checked: Result<(), ConfigError>)
        ensures
            checked == match self.fault() {
                Some(e) => Err::<(), ConfigError>(e),
                None => Ok(()),
            },
    {
        if self.cameras.len() == 0 {
            return Err(ConfigError::NoCameras);
        }
        if self.storage.endpoint.as_str().is_empty() {
            return Err(ConfigError::NoStorageEndpoint);
        }
        if self.storage.bucket.as_str().is_empty() {
            return Err(ConfigError::NoStorageBucket);
        }
        Ok(())
    }

    /// Reads the configuration from the environment's variables.
    ///
    /// `S3_ENDPOINT`, `S3_ACCESS_KEY_ID`, `S3_SECRET_ACCESS_KEY`,
    /// `CAMERA1_RTSP_URL` and `CAMERA2_RTSP_URL` must be set. The others have
    /// defaults; a `MAX_CONCURRENT_UPLOADS` that is no number counts as not
    /// set. What was read must pass `validate`.
    pub fn from_env(env: Environment) -> (read: Result<Config, ConfigError>)
        ensures
            match read {
                Ok(config) => env.fault() is None && env.describes(config) && config.fault()
                    is None,
                Err(e) => env.fault() == Some(e),
            },
    {
        let port_text = text_or_default(env.metrics_port, DEFAULT_METRICS_PORT);
        let metrics_port: u16 = match parse_unsigned(port_text.as_str(), 65535) {
            Some(p) => p as u16,
            None => {
                return Err(ConfigError::InvalidMetricsPort);
            },
        };
        let endpoint = match env.s3_endpoint {
            Some(v) => v,
            None => {
                return Err(ConfigError::EndpointNotSet);
            },
        };
        let bucket = text_or_default(env.s3_bucket, DEFAULT_BUCKET);
        let region = text_or_default(env.s3_region, DEFAULT_REGION);
        let access_key_id = match env.s3_access_key_id {
            Some(v) => v,
            None => {
                return Err(ConfigError::AccessKeyIdNotSet);
            },
        };
        let secret_access_key = match env.s3_secret_access_key {
            Some(v) => v,
            None => {
                return Err(ConfigError::SecretAccessKeyNotSet);
            },
        };
        let camera1_url = match env.camera1_rtsp_url {
            Some(v) => v,
            None => {
                return Err(ConfigError::Camera1UrlNotSet);
            },
        };
        let camera2_url = match env.camera2_rtsp_url {
            Some(v) => v,
            None => {
                return Err(ConfigError::Camera2UrlNotSet);
            },
        };
        let temp_dir = text_or_default(env.temp_dir, DEFAULT_TEMP_DIR);
        let max_concurrent: usize = match env.max_concurrent_uploads {
            Some(v) => match parse_unsigned(v.as_str(), usize::MAX as u64) {
                Some(n) => n as usize,
                None => DEFAULT_MAX_CONCURRENT,
            },
            None => DEFAULT_MAX_CONCURRENT,
        };
        let mut cameras: Vec<CameraConfig> = Vec::new();
        cameras.push(
            CameraConfig {
                id: String::from_str("camera-1"),
                name: String::from_str("Camera 1"),
                rtsp_url: camera1_url,
                segment_duration_secs: DEFAULT_SEGMENT_SECS,
            },
        );
        cameras.push(
            CameraConfig {
                id: String::from_str("camera-2"),
                name: String::from_str("Camera 2"),
                rtsp_url: camera2_url,
                segment_duration_secs: DEFAULT_SEGMENT_SECS,
            },
        );
        let config = Config {
            service: ServiceConfig { metrics_port },
            storage: StorageConfig { endpoint, bucket, region, access_key_id, secret_access_key },
            cameras,
            recording: RecordingConfig {
                temp_dir,
                local_retention_minutes: DEFAULT_RETENTION_MINUTES,
                video_codec: String::from_str(DEFAULT_VIDEO_CODEC),
                audio_codec: String::from_str(DEFAULT_AUDIO_CODEC),
            },
            upload: UploadConfig {
                max_concurrent,
                max_retries: DEFAULT_MAX_RETRIES,
                retry_backoff_secs: DEFAULT_RETRY_BACKOFF_SECS,
            },
        };
        match config.validate() {
            Ok(()) => Ok(config),
            Err(e) => Err(e),
        }
    }
}

} // verus!
